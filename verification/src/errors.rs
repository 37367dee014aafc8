//! The failures that decoding can report.
//!
//! Every fallible operation of the codec returns a [`ParsingError`]; none of
//! them panics on a short or malformed buffer.

use std::array::TryFromSliceError;
use std::ops::Range;
use std::str::Utf8Error;
use vstd::prelude::*;

verus! {

/// `std::array::TryFromSliceError`, carried through as an opaque value.
#[verifier::external_type_specification]
#[verifier::external_body]
pub struct ExTryFromSliceError(TryFromSliceError);

/// `std::str::Utf8Error`, carried through as an opaque value.
#[verifier::external_type_specification]
#[verifier::external_body]
pub struct ExUtf8Error(Utf8Error);

/// Why a field could not be decoded.
#[derive(Debug)]
pub enum ParsingError {
    /// A failure inside a field of a composite record. The inner error is the
    /// first cause; a record layer wraps it to say which field failed.
    Field(Box<ParsingError>),
    /// The requested half-open byte range does not lie inside the buffer.
    OutOfBounds(Range<usize>),
    /// A byte range could not be turned into the fixed-width form of a scalar.
    /// The decoders of this crate check the length of a range before they
    /// read it, so none of them returns this variant; it is kept for record
    /// layers that convert slices themselves.
    FromSliceError(TryFromSliceError),
    /// The bytes selected for a text field are not valid UTF-8.
    Utf8Error(Utf8Error),
}

impl Clone for ParsingError {
    fn clone(&self) -> (copy: Self)
        ensures
            copy == *self,
        decreases *self,
    {
        match self {
            ParsingError::Field(inner) => ParsingError::Field(Box::new((**inner).clone())),
            ParsingError::OutOfBounds(range) => ParsingError::OutOfBounds(range.start..range.end),
            ParsingError::FromSliceError(cause) => ParsingError::FromSliceError(*cause),
            ParsingError::Utf8Error(cause) => ParsingError::Utf8Error(*cause),
        }
    }
}

/// The range `[start, start + len)` as a `Range<usize>`. Where `start + len`
/// does not fit in `usize`, the end is clamped to `usize::MAX`; such a range
/// lies outside every buffer all the same.
pub open spec fn byte_range(start: int, len: int) -> Range<usize> {
    Range {
        start: start as usize,
        end: if start + len <= usize::MAX {
            (start + len) as usize
        } else {
            usize::MAX
        },
    }
}

/// Whether `[start, start + len)` lies inside a buffer of `buffer_len` bytes.
pub open spec fn in_bounds(buffer_len: nat, start: int, len: int) -> bool {
    0 <= start && 0 <= len && start + len <= buffer_len
}

/// Computes [`byte_range`].
pub(crate) fn range_of(start: usize, len: usize) -> (range: Range<usize>)
    ensures
        range == byte_range(start as int, len as int),
{
    start..start.saturating_add(len)
}

} // verus!
