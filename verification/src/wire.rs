//! Little-endian numbers of any width, as mathematics and as code.
//!
//! A sequence of bytes denotes the number whose base-256 digits it lists,
//! least significant first. Signed numbers are held in two's complement.

use crate::errors::{byte_range, in_bounds, range_of, ParsingError};
use vstd::prelude::*;

verus! {

/// `256` to the power `n`: how many numbers `n` bytes can tell apart.
pub open spec fn pow256(n: nat) -> nat
    decreases n,
{
    if n == 0 {
        1
    } else {
        256 * pow256((n - 1) as nat)
    }
}

/// The number that `bytes` denote, least significant byte first.
pub open spec fn le_value(bytes: Seq<u8>) -> nat
    decreases bytes.len(),
{
    if bytes.len() == 0 {
        0
    } else {
        bytes[0] as nat + 256 * le_value(bytes.drop_first())
    }
}

/// The `width` low base-256 digits of `value`, least significant first.
pub open spec fn le_bytes(value: nat, width: nat) -> Seq<u8>
    decreases width,
{
    if width == 0 {
        Seq::empty()
    } else {
        seq![(value % 256) as u8] + le_bytes(value / 256, (width - 1) as nat)
    }
}

/// The unsigned number that holds `value` in two's complement of `width` bytes.
pub open spec fn twos_complement(value: int, width: nat) -> nat {
    if value < 0 {
        (value + pow256(width)) as nat
    } else {
        value as nat
    }
}

/// The signed number that `raw` holds in two's complement of `width` bytes.
pub open spec fn from_twos_complement(raw: nat, width: nat) -> int {
    if 2 * raw >= pow256(width) {
        raw - pow256(width)
    } else {
        raw as int
    }
}

/// The bytes of `[index, index + width)` in `bytes`, or the range that is
/// missing from the buffer.
pub open spec fn field_bytes(bytes: Seq<u8>, index: int, width: int) -> Result<
    Seq<u8>,
    ParsingError,
> {
    if in_bounds(bytes.len(), index, width) {
        Ok(bytes.subrange(index, index + width))
    } else {
        Err(ParsingError::OutOfBounds(byte_range(index, width)))
    }
}

/// The number read from `width` bytes at `index`, or the range that is missing.
pub open spec fn field_value(bytes: Seq<u8>, index: int, width: int) -> Result<nat, ParsingError> {
    match field_bytes(bytes, index, width) {
        Ok(field) => Ok(le_value(field)),
        Err(e) => Err(e),
    }
}

/// The powers of 256 that the integer widths use.
pub proof fn lemma_pow256_values()
    ensures
        pow256(0) == 1,
        pow256(1) == 0x100,
        pow256(2) == 0x1_0000,
        pow256(3) == 0x100_0000,
        pow256(4) == 0x1_0000_0000,
        pow256(5) == 0x100_0000_0000,
        pow256(6) == 0x1_0000_0000_0000,
        pow256(7) == 0x100_0000_0000_0000,
        pow256(8) == 0x1_0000_0000_0000_0000,
{
    reveal_with_fuel(pow256, 9);
}

/// `le_bytes` yields exactly `width` bytes.
pub proof fn lemma_le_bytes_len(value: nat, width: nat)
    ensures
        le_bytes(value, width).len() == width,
    decreases width,
{
    if width > 0 {
        lemma_le_bytes_len(value / 256, (width - 1) as nat);
    }
}

/// `n` bytes denote a number below `256^n`.
pub proof fn lemma_le_value_bound(bytes: Seq<u8>)
    ensures
        le_value(bytes) < pow256(bytes.len()),
    decreases bytes.len(),
{
    if bytes.len() > 0 {
        lemma_le_value_bound(bytes.drop_first());
    }
}

/// A number that fits in `width` bytes is read back from its bytes.
pub proof fn lemma_le_value_of_bytes(value: nat, width: nat)
    requires
        value < pow256(width),
    ensures
        le_value(le_bytes(value, width)) == value,
    decreases width,
{
    if width > 0 {
        let rest = le_bytes(value / 256, (width - 1) as nat);
        lemma_le_value_of_bytes(value / 256, (width - 1) as nat);
        assert(le_bytes(value, width).drop_first() =~= rest);
    }
}

/// A number that fits in `width` bytes is read back from a buffer that holds
/// just its bytes.
pub proof fn lemma_field_value_of_bytes(value: nat, width: nat)
    requires
        value < pow256(width),
    ensures
        field_value(le_bytes(value, width), 0, width as int) == Ok::<nat, ParsingError>(value),
{
    let bytes = le_bytes(value, width);
    lemma_le_bytes_len(value, width);
    lemma_le_value_of_bytes(value, width);
    assert(bytes.subrange(0, width as int) =~= bytes);
}

/// Two's complement loses nothing on the signed range of `width` bytes.
pub proof fn lemma_twos_complement_inverse(value: int, width: nat)
    requires
        -(pow256(width) as int) <= 2 * value < pow256(width),
    ensures
        twos_complement(value, width) < pow256(width),
        from_twos_complement(twos_complement(value, width), width) == value,
{
}

/// Reads `width` bytes at `index` as one little-endian number.
pub(crate) fn read_le(slice: &Vec<u8>, index: usize, width: usize) -> (r: Result<u64, ParsingError>)
    requires
        width <= 8,
    ensures
        r is Ok <==> in_bounds(slice@.len(), index as int, width as int),
        r matches Ok(raw) ==> raw == le_value(slice@.subrange(index as int, index + width)) && raw
            < pow256(width as nat),
        r matches Err(e) ==> e == ParsingError::OutOfBounds(byte_range(index as int, width as int)),
{
    if index > slice.len() || slice.len() - index < width {
        return Err(ParsingError::OutOfBounds(range_of(index, width)));
    }
    let ghost field = slice@.subrange(index as int, index + width);
    let mut acc: u64 = 0;
    let mut k: usize = width;
    proof {
        assert(field.subrange(width as int, width as int) =~= Seq::<u8>::empty());
    }
    while k > 0
        invariant
            k <= width <= 8,
            index + width <= slice.len(),
            field == slice@.subrange(index as int, index + width),
            acc == le_value(field.subrange(k as int, width as int)),
        decreases k,
    {
        proof {
            // What has been read so far fits in seven bytes, so the next step cannot overflow.
            lemma_pow256_values();
            lemma_le_value_bound(field.subrange(k as int, width as int));
        }
        k = k - 1;
        proof {
            let upper = field.subrange(k as int, width as int);
            assert(upper.drop_first() =~= field.subrange(k + 1, width as int));
            assert(upper[0] == slice@[index + k]);
        }
        acc = acc * 256 + slice[index + k] as u64;
    }
    proof {
        assert(field.subrange(0, width as int) =~= field);
        lemma_le_value_bound(field);
    }
    Ok(acc)
}

/// Writes the `width` low bytes of `value`, least significant first.
pub(crate) fn write_le(value: u64, width: usize) -> (out: Vec<u8>)
    ensures
        out@ == le_bytes(value as nat, width as nat),
{
    let mut out: Vec<u8> = Vec::with_capacity(width);
    let mut rest: u64 = value;
    let mut k: usize = 0;
    while k < width
        invariant
            k <= width,
            out@ + le_bytes(rest as nat, (width - k) as nat) == le_bytes(value as nat, width as nat),
        decreases width - k,
    {
        proof {
            let tail = le_bytes((rest / 256) as nat, (width - k - 1) as nat);
            assert(out@.push((rest % 256) as u8) + tail =~= out@ + (seq![(rest % 256) as u8] + tail));
        }
        out.push((rest % 256) as u8);
        rest = rest / 256;
        k = k + 1;
    }
    out
}

} // verus!
