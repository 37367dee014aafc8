use csif::errors::ParsingError;
use csif::io::{DynSizedField, SizedField};
use csif::SizedPointer;

#[test]
fn a_clone_is_the_same_error() {
    let bounds = ParsingError::OutOfBounds(3..7);
    assert!(matches!(bounds.clone(), ParsingError::OutOfBounds(range) if range == (3..7)));
    assert!(matches!(bounds, ParsingError::OutOfBounds(range) if range == (3..7)));

    let cause = std::str::from_utf8(&[0x61, 0xFF]).unwrap_err();
    assert!(matches!(
        ParsingError::Utf8Error(cause).clone(),
        ParsingError::Utf8Error(copy) if copy == cause
    ));

    let slice: &[u8] = &[1, 2];
    let failed: Result<[u8; 4], _> = slice.try_into();
    let wrong_width = ParsingError::FromSliceError(failed.unwrap_err());
    assert!(matches!(wrong_width.clone(), ParsingError::FromSliceError(_)));
}

#[test]
fn a_clone_keeps_the_nesting_of_fields() {
    let nested = ParsingError::Field(Box::new(ParsingError::Field(Box::new(
        ParsingError::OutOfBounds(0..4),
    ))));
    match nested.clone() {
        ParsingError::Field(outer) => match *outer {
            ParsingError::Field(inner) => {
                assert!(matches!(*inner, ParsingError::OutOfBounds(range) if range == (0..4)))
            },
            other => panic!("expected Field, got {:?}", other),
        },
        other => panic!("expected Field, got {:?}", other),
    }
}

#[test]
fn a_record_layer_can_wrap_the_cause() {
    let cause = u32::csif_from(&vec![1, 2], 0).unwrap_err();
    let wrapped = ParsingError::Field(Box::new(cause));
    match wrapped {
        ParsingError::Field(inner) => {
            assert!(matches!(*inner, ParsingError::OutOfBounds(range) if range == (0..4)))
        },
        other => panic!("expected Field, got {:?}", other),
    }
}

#[test]
fn errors_can_be_printed() {
    assert_eq!(format!("{:?}", ParsingError::OutOfBounds(0..4)), "OutOfBounds(0..4)");
    let wrapped = ParsingError::Field(Box::new(ParsingError::OutOfBounds(2..3)));
    assert_eq!(format!("{:?}", wrapped), "Field(OutOfBounds(2..3))");
    let text = String::csif_from(&vec![0xFF], SizedPointer::new(0, 1)).unwrap_err();
    assert!(format!("{:?}", text).starts_with("Utf8Error("));
    assert_eq!(format!("{:?}", SizedPointer::new(8, 14)), "SizedPointer { index: 8, size: 14 }");
}

#[test]
fn the_decoders_never_report_a_slice_conversion() {
    for len in 0..12usize {
        let buffer: Vec<u8> = vec![0xFF; len];
        for index in 0..14usize {
            assert!(!matches!(u8::csif_from(&buffer, index), Err(ParsingError::FromSliceError(_))));
            assert!(!matches!(u32::csif_from(&buffer, index), Err(ParsingError::FromSliceError(_))));
            assert!(!matches!(i64::csif_from(&buffer, index), Err(ParsingError::FromSliceError(_))));
            assert_eq!(u32::csif_from(&buffer, index).is_ok(), index + 4 <= len);
            assert_eq!(i64::csif_from(&buffer, index).is_ok(), index + 8 <= len);
            assert_eq!(SizedPointer::csif_from(&buffer, index).is_ok(), index + 8 <= len);
        }
    }
}
