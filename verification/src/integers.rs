//! The integers as fixed-size fields: little-endian, signed ones in two's
//! complement.
//!
//! In the models below a number read from `n` bytes is cast to the type of
//! that width. The cast changes nothing: `n` bytes denote a number below
//! `256^n` ([`crate::wire::lemma_le_value_bound`]).

use crate::errors::{byte_range, ParsingError};
use crate::io::SizedField;
use crate::wire::{
    field_value, from_twos_complement, le_bytes, lemma_le_bytes_len, lemma_pow256_values, read_le,
    twos_complement, write_le,
};
use vstd::prelude::*;

verus! {

impl SizedField for u8 {
    const SIZE: usize = 1;

    open spec fn spec_size() -> nat {
        1
    }

    open spec fn spec_csif_from(bytes: Seq<u8>, index: int) -> Result<u8, ParsingError> {
        match field_value(bytes, index, 1) {
            Ok(value) => Ok(value as u8),
            Err(e) => Err(e),
        }
    }

    open spec fn spec_csif_into(&self) -> Seq<u8> {
        le_bytes(*self as nat, 1)
    }

    fn csif_from(slice: &Vec<u8>, index: usize) -> (r: Result<u8, ParsingError>)
        ensures
            index + 1 > slice@.len() ==> r == Err::<u8, ParsingError>(
                ParsingError::OutOfBounds(byte_range(index as int, 1)),
            ),
    {
        proof {
            lemma_pow256_values();
        }
        match read_le(slice, index, 1) {
            Ok(raw) => Ok(raw as u8),
            Err(e) => Err(e),
        }
    }

    fn csif_into(&self) -> (out: Vec<u8>) {
        proof {
            lemma_le_bytes_len(*self as nat, 1);
        }
        write_le(*self as u64, 1)
    }
}

impl SizedField for u16 {
    const SIZE: usize = 2;

    open spec fn spec_size() -> nat {
        2
    }

    open spec fn spec_csif_from(bytes: Seq<u8>, index: int) -> Result<u16, ParsingError> {
        match field_value(bytes, index, 2) {
            Ok(value) => Ok(value as u16),
            Err(e) => Err(e),
        }
    }

    open spec fn spec_csif_into(&self) -> Seq<u8> {
        le_bytes(*self as nat, 2)
    }

    fn csif_from(slice: &Vec<u8>, index: usize) -> (r: Result<u16, ParsingError>)
        ensures
            index + 2 > slice@.len() ==> r == Err::<u16, ParsingError>(
                ParsingError::OutOfBounds(byte_range(index as int, 2)),
            ),
    {
        proof {
            lemma_pow256_values();
        }
        match read_le(slice, index, 2) {
            Ok(raw) => Ok(raw as u16),
            Err(e) => Err(e),
        }
    }

    fn csif_into(&self) -> (out: Vec<u8>) {
        proof {
            lemma_le_bytes_len(*self as nat, 2);
        }
        write_le(*self as u64, 2)
    }
}

impl SizedField for u32 {
    const SIZE: usize = 4;

    open spec fn spec_size() -> nat {
        4
    }

    open spec fn spec_csif_from(bytes: Seq<u8>, index: int) -> Result<u32, ParsingError> {
        match field_value(bytes, index, 4) {
            Ok(value) => Ok(value as u32),
            Err(e) => Err(e),
        }
    }

    open spec fn spec_csif_into(&self) -> Seq<u8> {
        le_bytes(*self as nat, 4)
    }

    fn csif_from(slice: &Vec<u8>, index: usize) -> (r: Result<u32, ParsingError>)
        ensures
            index + 4 > slice@.len() ==> r == Err::<u32, ParsingError>(
                ParsingError::OutOfBounds(byte_range(index as int, 4)),
            ),
    {
        proof {
            lemma_pow256_values();
        }
        match read_le(slice, index, 4) {
            Ok(raw) => Ok(raw as u32),
            Err(e) => Err(e),
        }
    }

    fn csif_into(&self) -> (out: Vec<u8>) {
        proof {
            lemma_le_bytes_len(*self as nat, 4);
        }
        write_le(*self as u64, 4)
    }
}

impl SizedField for u64 {
    const SIZE: usize = 8;

    open spec fn spec_size() -> nat {
        8
    }

    open spec fn spec_csif_from(bytes: Seq<u8>, index: int) -> Result<u64, ParsingError> {
        match field_value(bytes, index, 8) {
            Ok(value) => Ok(value as u64),
            Err(e) => Err(e),
        }
    }

    open spec fn spec_csif_into(&self) -> Seq<u8> {
        le_bytes(*self as nat, 8)
    }

    fn csif_from(slice: &Vec<u8>, index: usize) -> (r: Result<u64, ParsingError>)
        ensures
            index + 8 > slice@.len() ==> r == Err::<u64, ParsingError>(
                ParsingError::OutOfBounds(byte_range(index as int, 8)),
            ),
    {
        proof {
            lemma_pow256_values();
        }
        match read_le(slice, index, 8) {
            Ok(raw) => Ok(raw as u64),
            Err(e) => Err(e),
        }
    }

    fn csif_into(&self) -> (out: Vec<u8>) {
        proof {
            lemma_le_bytes_len(*self as nat, 8);
        }
        write_le(*self as u64, 8)
    }
}

impl SizedField for usize {
    /// As wide as the platform's pointers: four or eight bytes.
    const SIZE: usize = (usize::BITS / 8) as usize;

    open spec fn spec_size() -> nat {
        (usize::BITS / 8) as nat
    }

    open spec fn spec_csif_from(bytes: Seq<u8>, index: int) -> Result<usize, ParsingError> {
        match field_value(bytes, index, Self::spec_size() as int) {
            Ok(value) => Ok(value as usize),
            Err(e) => Err(e),
        }
    }

    open spec fn spec_csif_into(&self) -> Seq<u8> {
        le_bytes(*self as nat, Self::spec_size())
    }

    fn csif_from(slice: &Vec<u8>, index: usize) -> (r: Result<usize, ParsingError>)
        ensures
            index + Self::spec_size() > slice@.len() ==> r == Err::<usize, ParsingError>(
                ParsingError::OutOfBounds(byte_range(index as int, Self::spec_size() as int)),
            ),
    {
        proof {
            lemma_pow256_values();
        }
        match read_le(slice, index, (usize::BITS / 8) as usize) {
            Ok(raw) => Ok(raw as usize),
            Err(e) => Err(e),
        }
    }

    fn csif_into(&self) -> (out: Vec<u8>) {
        proof {
            lemma_le_bytes_len(*self as nat, Self::spec_size());
        }
        write_le(*self as u64, (usize::BITS / 8) as usize)
    }
}

impl SizedField for i8 {
    const SIZE: usize = 1;

    open spec fn spec_size() -> nat {
        1
    }

    open spec fn spec_csif_from(bytes: Seq<u8>, index: int) -> Result<i8, ParsingError> {
        match field_value(bytes, index, 1) {
            Ok(value) => Ok(from_twos_complement(value, 1) as i8),
            Err(e) => Err(e),
        }
    }

    open spec fn spec_csif_into(&self) -> Seq<u8> {
        le_bytes(twos_complement(*self as int, 1), 1)
    }

    fn csif_from(slice: &Vec<u8>, index: usize) -> (r: Result<i8, ParsingError>)
        ensures
            index + 1 > slice@.len() ==> r == Err::<i8, ParsingError>(
                ParsingError::OutOfBounds(byte_range(index as int, 1)),
            ),
    {
        proof {
            lemma_pow256_values();
        }
        match read_le(slice, index, 1) {
            Ok(raw) => Ok(
                if raw < 0x80 {
                    raw as i8
                } else {
                    (raw as i16 - 0x100) as i8
                },
            ),
            Err(e) => Err(e),
        }
    }

    fn csif_into(&self) -> (out: Vec<u8>) {
        proof {
            lemma_pow256_values();
            lemma_le_bytes_len(twos_complement(*self as int, 1), 1);
        }
        let raw: u64 = if *self < 0 {
            (*self as i16 + 0x100) as u64
        } else {
            *self as u64
        };
        write_le(raw, 1)
    }
}

impl SizedField for i16 {
    const SIZE: usize = 2;

    open spec fn spec_size() -> nat {
        2
    }

    open spec fn spec_csif_from(bytes: Seq<u8>, index: int) -> Result<i16, ParsingError> {
        match field_value(bytes, index, 2) {
            Ok(value) => Ok(from_twos_complement(value, 2) as i16),
            Err(e) => Err(e),
        }
    }

    open spec fn spec_csif_into(&self) -> Seq<u8> {
        le_bytes(twos_complement(*self as int, 2), 2)
    }

    fn csif_from(slice: &Vec<u8>, index: usize) -> (r: Result<i16, ParsingError>)
        ensures
            index + 2 > slice@.len() ==> r == Err::<i16, ParsingError>(
                ParsingError::OutOfBounds(byte_range(index as int, 2)),
            ),
    {
        proof {
            lemma_pow256_values();
        }
        match read_le(slice, index, 2) {
            Ok(raw) => Ok(
                if raw < 0x8000 {
                    raw as i16
                } else {
                    (raw as i32 - 0x1_0000) as i16
                },
            ),
            Err(e) => Err(e),
        }
    }

    fn csif_into(&self) -> (out: Vec<u8>) {
        proof {
            lemma_pow256_values();
            lemma_le_bytes_len(twos_complement(*self as int, 2), 2);
        }
        let raw: u64 = if *self < 0 {
            (*self as i32 + 0x1_0000) as u64
        } else {
            *self as u64
        };
        write_le(raw, 2)
    }
}

impl SizedField for i32 {
    const SIZE: usize = 4;

    open spec fn spec_size() -> nat {
        4
    }

    open spec fn spec_csif_from(bytes: Seq<u8>, index: int) -> Result<i32, ParsingError> {
        match field_value(bytes, index, 4) {
            Ok(value) => Ok(from_twos_complement(value, 4) as i32),
            Err(e) => Err(e),
        }
    }

    open spec fn spec_csif_into(&self) -> Seq<u8> {
        le_bytes(twos_complement(*self as int, 4), 4)
    }

    fn csif_from(slice: &Vec<u8>, index: usize) -> (r: Result<i32, ParsingError>)
        ensures
            index + 4 > slice@.len() ==> r == Err::<i32, ParsingError>(
                ParsingError::OutOfBounds(byte_range(index as int, 4)),
            ),
    {
        proof {
            lemma_pow256_values();
        }
        match read_le(slice, index, 4) {
            Ok(raw) => Ok(
                if raw < 0x8000_0000 {
                    raw as i32
                } else {
                    (raw as i64 - 0x1_0000_0000) as i32
                },
            ),
            Err(e) => Err(e),
        }
    }

    fn csif_into(&self) -> (out: Vec<u8>) {
        proof {
            lemma_pow256_values();
            lemma_le_bytes_len(twos_complement(*self as int, 4), 4);
        }
        let raw: u64 = if *self < 0 {
            (*self as i64 + 0x1_0000_0000) as u64
        } else {
            *self as u64
        };
        write_le(raw, 4)
    }
}

impl SizedField for i64 {
    const SIZE: usize = 8;

    open spec fn spec_size() -> nat {
        8
    }

    open spec fn spec_csif_from(bytes: Seq<u8>, index: int) -> Result<i64, ParsingError> {
        match field_value(bytes, index, 8) {
            Ok(value) => Ok(from_twos_complement(value, 8) as i64),
            Err(e) => Err(e),
        }
    }

    open spec fn spec_csif_into(&self) -> Seq<u8> {
        le_bytes(twos_complement(*self as int, 8), 8)
    }

    fn csif_from(slice: &Vec<u8>, index: usize) -> (r: Result<i64, ParsingError>)
        ensures
            index + 8 > slice@.len() ==> r == Err::<i64, ParsingError>(
                ParsingError::OutOfBounds(byte_range(index as int, 8)),
            ),
    {
        proof {
            lemma_pow256_values();
        }
        match read_le(slice, index, 8) {
            Ok(raw) => Ok(
                if raw < 0x8000_0000_0000_0000 {
                    raw as i64
                } else {
                    (raw as i128 - 0x1_0000_0000_0000_0000) as i64
                },
            ),
            Err(e) => Err(e),
        }
    }

    fn csif_into(&self) -> (out: Vec<u8>) {
        proof {
            lemma_pow256_values();
            lemma_le_bytes_len(twos_complement(*self as int, 8), 8);
        }
        let raw: u64 = if *self < 0 {
            (*self as i128 + 0x1_0000_0000_0000_0000) as u64
        } else {
            *self as u64
        };
        write_le(raw, 8)
    }
}

/// The constants `SIZE` of the integers hold the widths that their contracts
/// speak of.
pub proof fn lemma_size_constants()
    ensures
        <u8 as SizedField>::SIZE == <u8 as SizedField>::spec_size(),
        <u16 as SizedField>::SIZE == <u16 as SizedField>::spec_size(),
        <u32 as SizedField>::SIZE == <u32 as SizedField>::spec_size(),
        <u64 as SizedField>::SIZE == <u64 as SizedField>::spec_size(),
        <usize as SizedField>::SIZE == <usize as SizedField>::spec_size(),
        <i8 as SizedField>::SIZE == <i8 as SizedField>::spec_size(),
        <i16 as SizedField>::SIZE == <i16 as SizedField>::spec_size(),
        <i32 as SizedField>::SIZE == <i32 as SizedField>::spec_size(),
        <i64 as SizedField>::SIZE == <i64 as SizedField>::spec_size(),
{
}

} // verus!
