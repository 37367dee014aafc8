//! A compact binary codec: typed values to and from positions in a flat byte
//! buffer.
//!
//! A record is a flat sequence of bytes that the caller owns. A value of
//! fixed width is read straight from its offset ([`io::SizedField`]). A value
//! of varying width, such as a text, lies elsewhere in the same buffer and is
//! found through a [`SizedPointer`] stored at a fixed offset
//! ([`io::DynSizedField`]). All numbers are little-endian.
//!
//! Decoding never changes the buffer and never panics: a short or malformed
//! buffer gives an [`errors::ParsingError`]. Encoding returns new bytes.
//!
//! - [`errors`]: the failures that decoding reports.
//! - [`wire`]: little-endian numbers as mathematics, and the code that reads
//!   and writes them.
//! - [`io`]: the two field contracts, the boolean and the descriptor.
//! - [`integers`], [`ieee`], [`text`]: the other fields.
//! - [`laws`]: what is read back from an encoding.

use std::ops::Range;
use vstd::prelude::*;

pub mod errors;
pub mod ieee;
pub mod integers;
pub mod io;
pub mod laws;
pub mod text;
pub mod wire;

verus! {

/// A descriptor: an (offset, length) pair that names the byte range
/// `[index, index + size)` of a buffer. Any pair can be built; whether its
/// range lies inside a buffer is decided when it is used to read from one.
#[derive(Debug)]
pub struct SizedPointer {
    /// Where the range starts.
    pub index: usize,
    /// How many bytes the range holds.
    pub size: usize,
}

impl SizedPointer {
    /// The range that the descriptor names: see [`errors::byte_range`].
    pub open spec fn spec_as_range(&self) -> Range<usize> {
        errors::byte_range(self.index as int, self.size as int)
    }

    /// Whether the named range lies inside a buffer of `buffer_len` bytes.
    pub open spec fn spec_fits(&self, buffer_len: nat) -> bool {
        self.index + self.size <= buffer_len
    }

    /// The bytes of `bytes` that the descriptor names.
    pub open spec fn spec_named(&self, bytes: Seq<u8>) -> Seq<u8> {
        bytes.subrange(self.index as int, self.index + self.size)
    }

    /// Builds a descriptor; nothing is checked.
    pub fn new(index: usize, size: usize) -> (pointer: Self)
        ensures
            pointer == (SizedPointer { index, size }),
    {
        Self { index, size }
    }

    /// The half-open byte range `[index, index + size)`, its end clamped to
    /// `usize::MAX` where the sum does not fit.
    pub fn as_range(&self) -> (range: Range<usize>)
        ensures
            range == self.spec_as_range(),
    {
        errors::range_of(self.index, self.size)
    }
}

} // verus!

