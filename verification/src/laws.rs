//! What holds of the codec as a whole: what is read back from an encoding.
//!
//! Each statement is over the models that the contracts of
//! [`SizedField`] and [`DynSizedField`] use, so it
//! holds of every call of the functions themselves.

use crate::errors::ParsingError;
use crate::ieee::{Binary32, Binary64};
use crate::io::{DynSizedField, SizedField};
use crate::wire::{
    le_bytes, lemma_field_value_of_bytes, lemma_le_bytes_len, lemma_le_value_of_bytes,
    lemma_pow256_values, lemma_twos_complement_inverse, twos_complement,
};
use crate::SizedPointer;
use vstd::prelude::*;
use vstd::utf8::{encode_utf8, encode_utf8_decode_utf8, encode_utf8_valid_utf8};

verus! {

/// Every `u8` is read back from its own encoding.
pub proof fn round_trip_u8(value: u8)
    ensures
        u8::spec_csif_from(value.spec_csif_into(), 0) == Ok::<u8, ParsingError>(value),
{
    lemma_pow256_values();
    lemma_field_value_of_bytes(value as nat, 1);
}

/// Every `u16` is read back from its own encoding.
pub proof fn round_trip_u16(value: u16)
    ensures
        u16::spec_csif_from(value.spec_csif_into(), 0) == Ok::<u16, ParsingError>(value),
{
    lemma_pow256_values();
    lemma_field_value_of_bytes(value as nat, 2);
}

/// Every `u32` is read back from its own encoding.
pub proof fn round_trip_u32(value: u32)
    ensures
        u32::spec_csif_from(value.spec_csif_into(), 0) == Ok::<u32, ParsingError>(value),
{
    lemma_pow256_values();
    lemma_field_value_of_bytes(value as nat, 4);
}

/// Every `u64` is read back from its own encoding.
pub proof fn round_trip_u64(value: u64)
    ensures
        u64::spec_csif_from(value.spec_csif_into(), 0) == Ok::<u64, ParsingError>(value),
{
    lemma_pow256_values();
    lemma_field_value_of_bytes(value as nat, 8);
}

/// Every `usize` is read back from its own encoding.
pub proof fn round_trip_usize(value: usize)
    ensures
        usize::spec_csif_from(value.spec_csif_into(), 0) == Ok::<usize, ParsingError>(value),
{
    lemma_pow256_values();
    lemma_field_value_of_bytes(value as nat, usize::spec_size());
}

/// Every `i8` is read back from its own encoding.
pub proof fn round_trip_i8(value: i8)
    ensures
        i8::spec_csif_from(value.spec_csif_into(), 0) == Ok::<i8, ParsingError>(value),
{
    lemma_pow256_values();
    lemma_twos_complement_inverse(value as int, 1);
    lemma_field_value_of_bytes(twos_complement(value as int, 1), 1);
}

/// Every `i16` is read back from its own encoding.
pub proof fn round_trip_i16(value: i16)
    ensures
        i16::spec_csif_from(value.spec_csif_into(), 0) == Ok::<i16, ParsingError>(value),
{
    lemma_pow256_values();
    lemma_twos_complement_inverse(value as int, 2);
    lemma_field_value_of_bytes(twos_complement(value as int, 2), 2);
}

/// Every `i32` is read back from its own encoding.
pub proof fn round_trip_i32(value: i32)
    ensures
        i32::spec_csif_from(value.spec_csif_into(), 0) == Ok::<i32, ParsingError>(value),
{
    lemma_pow256_values();
    lemma_twos_complement_inverse(value as int, 4);
    lemma_field_value_of_bytes(twos_complement(value as int, 4), 4);
}

/// Every `i64` is read back from its own encoding.
pub proof fn round_trip_i64(value: i64)
    ensures
        i64::spec_csif_from(value.spec_csif_into(), 0) == Ok::<i64, ParsingError>(value),
{
    lemma_pow256_values();
    lemma_twos_complement_inverse(value as int, 8);
    lemma_field_value_of_bytes(twos_complement(value as int, 8), 8);
}

/// Every bit pattern of a single-precision number is read back from its own
/// encoding.
pub proof fn round_trip_binary32(value: Binary32)
    ensures
        Binary32::spec_csif_from(value.spec_csif_into(), 0) == Ok::<Binary32, ParsingError>(value),
{
    lemma_pow256_values();
    lemma_field_value_of_bytes(value.0 as nat, 4);
}

/// Every bit pattern of a double-precision number is read back from its own
/// encoding.
pub proof fn round_trip_binary64(value: Binary64)
    ensures
        Binary64::spec_csif_from(value.spec_csif_into(), 0) == Ok::<Binary64, ParsingError>(value),
{
    lemma_pow256_values();
    lemma_field_value_of_bytes(value.0 as nat, 8);
}

/// A descriptor whose offset and length each fit in four bytes is read back
/// from its own encoding.
pub proof fn round_trip_sized_pointer(pointer: SizedPointer)
    requires
        pointer.index <= u32::MAX,
        pointer.size <= u32::MAX,
    ensures
        SizedPointer::spec_csif_from(pointer.spec_csif_into(), 0) == Ok::<
            SizedPointer,
            ParsingError,
        >(pointer),
{
    let first = le_bytes(pointer.index as nat, 4);
    let second = le_bytes(pointer.size as nat, 4);
    lemma_pow256_values();
    lemma_le_bytes_len(pointer.index as nat, 4);
    lemma_le_bytes_len(pointer.size as nat, 4);
    lemma_le_value_of_bytes(pointer.index as nat, 4);
    lemma_le_value_of_bytes(pointer.size as nat, 4);
    assert((first + second).subrange(0, 4) =~= first);
    assert((first + second).subrange(4, 8) =~= second);
}

/// A boolean is read back inverted from its own encoding: `true` is written
/// as `0x00`, which reads as `false`, and `false` as `0xFF`, which reads as
/// `true`.
pub proof fn bool_is_read_back_inverted(value: bool)
    ensures
        bool::spec_csif_from(value.spec_csif_into(), 0) == Ok::<bool, ParsingError>(!value),
{
    let bytes = value.spec_csif_into();
    assert(bytes.subrange(0, 1) =~= bytes);
}

/// A text is read back from its own encoding, through a descriptor that names
/// all of it.
pub proof fn round_trip_text(text: String, pointer: SizedPointer, r: Result<String, ParsingError>)
    requires
        pointer.index == 0,
        pointer.size == text.spec_csif_into().len(),
        String::decodes_to(text.spec_csif_into(), pointer, r),
    ensures
        r matches Ok(decoded) && decoded@ == text@,
{
    let bytes = encode_utf8(text@);
    encode_utf8_valid_utf8(text@);
    encode_utf8_decode_utf8(text@);
    assert(bytes.subrange(0, bytes.len() as int) =~= bytes);
}

} // verus!
