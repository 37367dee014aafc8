//! The two field contracts, and the fields that every record needs: the
//! boolean and the descriptor.
//!
//! A field of fixed size is read straight from its offset. A field of varying
//! size lives elsewhere in the buffer and is reached through a descriptor,
//! which is itself a field of fixed size.

use crate::errors::{byte_range, range_of, ParsingError};
use crate::wire::{
    field_bytes, field_value, le_bytes, lemma_le_bytes_len, lemma_pow256_values,
    read_le, write_le,
};
use crate::SizedPointer;
use vstd::prelude::*;

verus! {

/// A value whose encoding has the same width wherever it stands.
///
/// Decoding borrows the buffer and never changes it; encoding returns bytes of
/// its own.
pub trait SizedField: Sized {
    /// The width of the encoding, in bytes.
    const SIZE: usize;

    /// The width of the encoding, in bytes: what `SIZE` holds, for contracts.
    spec fn spec_size() -> nat;

    /// What decoding at `index` of `bytes` yields.
    spec fn spec_csif_from(bytes: Seq<u8>, index: int) -> Result<Self, ParsingError>;

    /// The bytes that encode the value.
    spec fn spec_csif_into(&self) -> Seq<u8>;

    /// Decodes the `SIZE` bytes at `index`. Fails, with the range that is
    /// missing, exactly when these bytes do not all lie inside the buffer.
    fn csif_from(slice: &Vec<u8>, index: usize) -> (r: Result<Self, ParsingError>)
        ensures
            r == Self::spec_csif_from(slice@, index as int),
            r is Ok <==> index + Self::spec_size() <= slice@.len(),
            r matches Err(e) ==> e is OutOfBounds,
    ;

    /// Encodes the value as `SIZE` new bytes.
    fn csif_into(&self) -> (out: Vec<u8>)
        ensures
            out@ == self.spec_csif_into(),
            out@.len() == Self::spec_size(),
    ;
}

/// A value whose encoding varies in width. Its bytes carry neither a length
/// nor a terminator: a descriptor stored at a fixed offset says where they are.
pub trait DynSizedField: Sized {
    /// Whether `r` is what decoding the range `pointer` of `bytes` yields.
    spec fn decodes_to(bytes: Seq<u8>, pointer: SizedPointer, r: Result<Self, ParsingError>) -> bool;

    /// The bytes that encode the value.
    spec fn spec_csif_into(&self) -> Seq<u8>;

    /// Decodes the bytes that `sized_pointer` names. Fails with the
    /// descriptor's range when that range does not lie inside the buffer.
    fn csif_from(slice: &Vec<u8>, sized_pointer: SizedPointer) -> (r: Result<Self, ParsingError>)
        ensures
            Self::decodes_to(slice@, sized_pointer, r),
            !sized_pointer.spec_fits(slice@.len()) ==> r == Err::<Self, ParsingError>(
                ParsingError::OutOfBounds(sized_pointer.spec_as_range()),
            ),
    ;

    /// Encodes the value as new bytes, with nothing before or after them.
    fn csif_into(&self) -> (out: Vec<u8>)
        ensures
            out@ == self.spec_csif_into(),
    ;

    /// Decodes the descriptor at `pointer_index`, then the bytes that it
    /// names. A failure of either step is returned as it is.
    fn csif_from_thru_sized_ref(slice: &Vec<u8>, pointer_index: usize) -> (r: Result<
        Self,
        ParsingError,
    >)
        ensures
            SizedPointer::spec_csif_from(slice@, pointer_index as int) matches Ok(pointer)
                ==> Self::decodes_to(slice@, pointer, r),
            SizedPointer::spec_csif_from(slice@, pointer_index as int) matches Err(e) ==> r
                == Err::<Self, ParsingError>(e),
    {
        match SizedPointer::csif_from(slice, pointer_index) {
            Ok(pointer) => Self::csif_from(slice, pointer),
            Err(e) => Err(e),
        }
    }
}

/// One byte. Any byte but zero is read as `true`; `true` is written as `0x00`
/// and `false` as `0xFF`. So a boolean is read back inverted from its own
/// encoding: see [`crate::laws::bool_is_read_back_inverted`].
impl SizedField for bool {
    const SIZE: usize = 1;

    open spec fn spec_size() -> nat {
        1
    }

    open spec fn spec_csif_from(bytes: Seq<u8>, index: int) -> Result<bool, ParsingError> {
        match field_bytes(bytes, index, 1) {
            Ok(field) => Ok(field[0] != 0),
            Err(e) => Err(e),
        }
    }

    open spec fn spec_csif_into(&self) -> Seq<u8> {
        if *self {
            seq![0x00u8]
        } else {
            seq![0xFFu8]
        }
    }

    fn csif_from(slice: &Vec<u8>, index: usize) -> (r: Result<bool, ParsingError>)
        ensures
            index + 1 > slice@.len() ==> r == Err::<bool, ParsingError>(
                ParsingError::OutOfBounds(byte_range(index as int, 1)),
            ),
    {
        if index < slice.len() {
            Ok(slice[index] != 0)
        } else {
            Err(ParsingError::OutOfBounds(range_of(index, 1)))
        }
    }

    fn csif_into(&self) -> (out: Vec<u8>) {
        if *self {
            vec![0x00]
        } else {
            vec![0xFF]
        }
    }
}

/// Eight bytes on every platform: `index` as four little-endian bytes, then
/// `size` as four. Encoding writes the four low bytes of each; a descriptor
/// read from a buffer always has both below `2^32`.
///
/// A failed read names the four bytes that are missing: those of `index`, or
/// else those of `size`.
impl SizedField for SizedPointer {
    const SIZE: usize = 8;

    open spec fn spec_size() -> nat {
        8
    }

    open spec fn spec_csif_from(bytes: Seq<u8>, index: int) -> Result<SizedPointer, ParsingError> {
        match field_value(bytes, index, 4) {
            Err(e) => Err(e),
            Ok(first) => match field_value(bytes, index + 4, 4) {
                Err(e) => Err(e),
                Ok(second) => Ok(SizedPointer { index: first as usize, size: second as usize }),
            },
        }
    }

    open spec fn spec_csif_into(&self) -> Seq<u8> {
        le_bytes(self.index as nat, 4) + le_bytes(self.size as nat, 4)
    }

    fn csif_from(slice: &Vec<u8>, index: usize) -> (r: Result<SizedPointer, ParsingError>)
        ensures
            index + 4 > slice@.len() ==> r == Err::<SizedPointer, ParsingError>(
                ParsingError::OutOfBounds(byte_range(index as int, 4)),
            ),
            index + 4 <= slice@.len() < index + 8 ==> r == Err::<SizedPointer, ParsingError>(
                ParsingError::OutOfBounds(byte_range(index + 4, 4)),
            ),
            r matches Ok(pointer) ==> pointer.index <= u32::MAX && pointer.size <= u32::MAX,
    {
        proof {
            lemma_pow256_values();
            // The contract of the trait speaks of the width by this name.
            assert(Self::spec_size() == 8);
        }
        let first: u64 = match read_le(slice, index, 4) {
            Ok(value) => value,
            Err(e) => {
                return Err(e);
            },
        };
        assert(index + 4 <= slice.len());
        let second: u64 = match read_le(slice, index + 4, 4) {
            Ok(value) => value,
            Err(e) => {
                return Err(e);
            },
        };
        Ok(SizedPointer::new(first as usize, second as usize))
    }

    fn csif_into(&self) -> (out: Vec<u8>) {
        proof {
            lemma_le_bytes_len(self.index as nat, 4);
            lemma_le_bytes_len(self.size as nat, 4);
        }
        let mut out: Vec<u8> = write_le(self.index as u64, 4);
        let mut tail: Vec<u8> = write_le(self.size as u64, 4);
        out.append(&mut tail);
        out
    }
}

/// The constants `SIZE` of the boolean and of the descriptor hold the widths
/// that their contracts speak of.
pub proof fn lemma_size_constants()
    ensures
        <bool as SizedField>::SIZE == <bool as SizedField>::spec_size(),
        <SizedPointer as SizedField>::SIZE == <SizedPointer as SizedField>::spec_size(),
{
}

} // verus!
