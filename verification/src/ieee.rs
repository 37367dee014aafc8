//! IEEE-754 numbers as fixed-size fields.
//!
//! A number is held as its bit pattern, which is what the wire carries: the
//! pattern as a little-endian integer of four or eight bytes. Turning a
//! pattern into a number of the machine, and back, is left to the caller.

use crate::errors::{byte_range, ParsingError};
use crate::io::SizedField;
use crate::wire::{
    field_value, le_bytes, lemma_le_bytes_len, lemma_pow256_values, read_le, write_le,
};
use vstd::prelude::*;

verus! {

/// A single-precision number (IEEE-754 binary32), as its 32 bits.
#[derive(Debug, Clone, Copy, PartialEq, Eq, Structural)]
pub struct Binary32(pub u32);

/// A double-precision number (IEEE-754 binary64), as its 64 bits.
#[derive(Debug, Clone, Copy, PartialEq, Eq, Structural)]
pub struct Binary64(pub u64);

impl SizedField for Binary32 {
    const SIZE: usize = 4;

    open spec fn spec_size() -> nat {
        4
    }

    open spec fn spec_csif_from(bytes: Seq<u8>, index: int) -> Result<Binary32, ParsingError> {
        match field_value(bytes, index, 4) {
            Ok(value) => Ok(Binary32(value as u32)),
            Err(e) => Err(e),
        }
    }

    open spec fn spec_csif_into(&self) -> Seq<u8> {
        le_bytes(self.0 as nat, 4)
    }

    fn csif_from(slice: &Vec<u8>, index: usize) -> (r: Result<Binary32, ParsingError>)
        ensures
            index + 4 > slice@.len() ==> r == Err::<Binary32, ParsingError>(
                ParsingError::OutOfBounds(byte_range(index as int, 4)),
            ),
    {
        proof {
            lemma_pow256_values();
        }
        match read_le(slice, index, 4) {
            Ok(raw) => Ok(Binary32(raw as u32)),
            Err(e) => Err(e),
        }
    }

    fn csif_into(&self) -> (out: Vec<u8>) {
        proof {
            lemma_le_bytes_len(self.0 as nat, 4);
        }
        write_le(self.0 as u64, 4)
    }
}

impl SizedField for Binary64 {
    const SIZE: usize = 8;

    open spec fn spec_size() -> nat {
        8
    }

    open spec fn spec_csif_from(bytes: Seq<u8>, index: int) -> Result<Binary64, ParsingError> {
        match field_value(bytes, index, 8) {
            Ok(value) => Ok(Binary64(value as u64)),
            Err(e) => Err(e),
        }
    }

    open spec fn spec_csif_into(&self) -> Seq<u8> {
        le_bytes(self.0 as nat, 8)
    }

    fn csif_from(slice: &Vec<u8>, index: usize) -> (r: Result<Binary64, ParsingError>)
        ensures
            index + 8 > slice@.len() ==> r == Err::<Binary64, ParsingError>(
                ParsingError::OutOfBounds(byte_range(index as int, 8)),
            ),
    {
        proof {
            lemma_pow256_values();
        }
        match read_le(slice, index, 8) {
            Ok(raw) => Ok(Binary64(raw)),
            Err(e) => Err(e),
        }
    }

    fn csif_into(&self) -> (out: Vec<u8>) {
        proof {
            lemma_le_bytes_len(self.0 as nat, 8);
        }
        write_le(self.0, 8)
    }
}

/// The constants `SIZE` of the two precisions hold the widths that their
/// contracts speak of.
pub proof fn lemma_size_constants()
    ensures
        <Binary32 as SizedField>::SIZE == <Binary32 as SizedField>::spec_size(),
        <Binary64 as SizedField>::SIZE == <Binary64 as SizedField>::spec_size(),
{
}

} // verus!
