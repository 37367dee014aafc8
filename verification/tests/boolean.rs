use csif::errors::ParsingError;
use csif::io::SizedField;

#[test]
fn true_is_written_as_zero_and_false_as_all_ones() {
    assert_eq!(true.csif_into(), vec![0x00]);
    assert_eq!(false.csif_into(), vec![0xFF]);
}

#[test]
fn any_byte_but_zero_reads_as_true() {
    assert_eq!(bool::csif_from(&vec![0x00], 0).unwrap(), false);
    for byte in 1..=u8::MAX {
        assert_eq!(bool::csif_from(&vec![byte], 0).unwrap(), true);
    }
}

#[test]
fn a_boolean_is_read_back_inverted() {
    assert_eq!(bool::csif_from(&true.csif_into(), 0).unwrap(), false);
    assert_eq!(bool::csif_from(&false.csif_into(), 0).unwrap(), true);
}

#[test]
fn a_boolean_is_one_byte_wide() {
    assert_eq!(<bool as SizedField>::SIZE, 1);
    assert_eq!(true.csif_into().len(), 1);
    assert_eq!(bool::csif_from(&vec![0x00, 0x01, 0x00], 1).unwrap(), true);
    assert_eq!(bool::csif_from(&vec![0x00, 0x01, 0x00], 2).unwrap(), false);
}

#[test]
fn a_boolean_past_the_end_is_out_of_bounds() {
    assert!(matches!(
        bool::csif_from(&vec![], 0),
        Err(ParsingError::OutOfBounds(range)) if range == (0..1)
    ));
    assert!(matches!(
        bool::csif_from(&vec![1, 1], 2),
        Err(ParsingError::OutOfBounds(range)) if range == (2..3)
    ));
    assert!(matches!(
        bool::csif_from(&vec![1, 1], usize::MAX),
        Err(ParsingError::OutOfBounds(range)) if range == (usize::MAX..usize::MAX)
    ));
}
