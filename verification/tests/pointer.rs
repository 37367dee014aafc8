use csif::errors::ParsingError;
use csif::io::SizedField;
use csif::SizedPointer;
use std::ops::Range;

fn missing<T>(r: Result<T, ParsingError>) -> Range<usize> {
    match r {
        Err(ParsingError::OutOfBounds(range)) => range,
        Err(other) => panic!("expected OutOfBounds, got {:?}", other),
        Ok(_) => panic!("expected OutOfBounds, got a value"),
    }
}

#[test]
fn new_keeps_what_it_is_given() {
    let pointer = SizedPointer::new(8, 14);
    assert_eq!(pointer.index, 8);
    assert_eq!(pointer.size, 14);
    let unchecked = SizedPointer::new(usize::MAX, usize::MAX);
    assert_eq!(unchecked.index, usize::MAX);
    assert_eq!(unchecked.size, usize::MAX);
}

#[test]
fn as_range_is_half_open() {
    assert_eq!(SizedPointer::new(8, 14).as_range(), 8..22);
    assert_eq!(SizedPointer::new(0, 0).as_range(), 0..0);
    assert_eq!(SizedPointer::new(5, 0).as_range(), 5..5);
    assert_eq!(SizedPointer::new(0, usize::MAX).as_range(), 0..usize::MAX);
}

#[test]
fn as_range_clamps_an_end_that_does_not_fit() {
    assert_eq!(SizedPointer::new(usize::MAX, 2).as_range(), usize::MAX..usize::MAX);
    assert_eq!(SizedPointer::new(1, usize::MAX).as_range(), 1..usize::MAX);
    assert_eq!(SizedPointer::new(usize::MAX, usize::MAX).as_range(), usize::MAX..usize::MAX);
}

#[test]
fn descriptor_is_two_little_endian_words() {
    assert_eq!(
        SizedPointer::new(8, 14).csif_into(),
        vec![0x08, 0x00, 0x00, 0x00, 0x0E, 0x00, 0x00, 0x00]
    );
    let decoded =
        SizedPointer::csif_from(&vec![0x08, 0x00, 0x00, 0x00, 0x0E, 0x00, 0x00, 0x00], 0).unwrap();
    assert_eq!(decoded.index, 8);
    assert_eq!(decoded.size, 14);
}

#[test]
fn descriptor_is_eight_bytes_wide() {
    assert_eq!(<SizedPointer as SizedField>::SIZE, 8);
    assert_eq!(SizedPointer::new(0, 0).csif_into().len(), 8);
    assert_eq!(SizedPointer::new(usize::MAX, usize::MAX).csif_into().len(), 8);
}

#[test]
fn descriptor_round_trip_on_edge_values() {
    let most = u32::MAX as usize;
    for (index, size) in [(0, 0), (1, 0), (0, 1), (0x0102_0304, 0x0A0B_0C0D), (most, most)] {
        let bytes = SizedPointer::new(index, size).csif_into();
        let decoded = SizedPointer::csif_from(&bytes, 0).unwrap();
        assert_eq!(decoded.index, index);
        assert_eq!(decoded.size, size);
    }
    assert_eq!(
        SizedPointer::new(0x0102_0304, 0x0A0B_0C0D).csif_into(),
        vec![0x04, 0x03, 0x02, 0x01, 0x0D, 0x0C, 0x0B, 0x0A]
    );
    assert_eq!(SizedPointer::new(most, most).csif_into(), vec![0xFF; 8]);
}

#[test]
fn descriptor_encoding_keeps_the_four_low_bytes() {
    let wide = (u32::MAX as usize).wrapping_add(3);
    assert_eq!(
        SizedPointer::new(wide, wide).csif_into(),
        vec![0x02, 0x00, 0x00, 0x00, 0x02, 0x00, 0x00, 0x00]
    );
}

#[test]
fn descriptor_is_read_at_an_offset() {
    let buffer: Vec<u8> = vec![0xAA, 0x01, 0x00, 0x00, 0x00, 0x02, 0x00, 0x00, 0x00, 0xBB];
    let decoded = SizedPointer::csif_from(&buffer, 1).unwrap();
    assert_eq!(decoded.index, 1);
    assert_eq!(decoded.size, 2);
    let shifted = SizedPointer::csif_from(&buffer, 2).unwrap();
    assert_eq!(shifted.index, 0x0200_0000);
    assert_eq!(shifted.size, 0xBB00_0000);
}

#[test]
fn short_descriptor_names_the_word_that_is_missing() {
    assert_eq!(missing(SizedPointer::csif_from(&vec![], 0)), 0..4);
    assert_eq!(missing(SizedPointer::csif_from(&vec![1, 2, 3], 0)), 0..4);
    assert_eq!(missing(SizedPointer::csif_from(&vec![1, 2, 3, 4], 0)), 4..8);
    assert_eq!(missing(SizedPointer::csif_from(&vec![1, 2, 3, 4, 5, 6], 0)), 4..8);
    assert_eq!(missing(SizedPointer::csif_from(&vec![1, 2, 3, 4, 5, 6, 7], 0)), 4..8);
    assert_eq!(missing(SizedPointer::csif_from(&vec![0; 10], 3)), 7..11);
    assert_eq!(missing(SizedPointer::csif_from(&vec![0; 10], 7)), 7..11);
    assert_eq!(missing(SizedPointer::csif_from(&vec![0; 10], 20)), 20..24);
    assert_eq!(
        missing(SizedPointer::csif_from(&vec![0; 10], usize::MAX)),
        usize::MAX..usize::MAX
    );
}
