//! Text as a field of varying size: the UTF-8 bytes of a `String`.

use crate::errors::ParsingError;
use crate::io::DynSizedField;
use crate::wire::field_bytes;
use crate::SizedPointer;
use std::str::Utf8Error;
use vstd::prelude::*;
use vstd::slice::{slice_subrange, slice_to_vec};
use vstd::utf8::{decode_utf8, encode_utf8, encode_utf8_decode_utf8, valid_utf8};

verus! {

/// The error that `std::str::from_utf8` reports for `bytes` that are not valid
/// UTF-8. It says how many leading bytes are valid and how long the offending
/// sequence is, both of which the bytes alone decide.
pub uninterp spec fn utf8_error_of(bytes: Seq<u8>) -> Utf8Error;

/// `std::str::from_utf8` checks that the bytes are well-formed UTF-8 and, if
/// they are, hands the same bytes back as a string slice; if they are not, it
/// reports where and how they fail.
pub assume_specification[ std::str::from_utf8 ](v: &[u8]) -> (r: Result<&str, Utf8Error>)
    ensures
        r is Ok <==> valid_utf8(v@),
        r matches Ok(text) ==> encode_utf8(text@) == v@,
        r matches Err(e) ==> e == utf8_error_of(v@),
;

/// What the text decoder returns for an outcome of the UTF-8 check: the
/// checked slice as a `String` of its own, or the failure as a
/// [`ParsingError::Utf8Error`] with the same cause.
pub fn text_of_checked(checked: Result<&str, Utf8Error>) -> (r: Result<String, ParsingError>)
    ensures
        checked matches Ok(text) ==> (r matches Ok(owned) && owned@ == text@),
        checked matches Err(cause) ==> r == Err::<String, ParsingError>(
            ParsingError::Utf8Error(cause),
        ),
{
    match checked {
        Ok(text) => Ok(text.to_owned()),
        Err(cause) => Err(ParsingError::Utf8Error(cause)),
    }
}

impl DynSizedField for String {
    open spec fn decodes_to(
        bytes: Seq<u8>,
        pointer: SizedPointer,
        r: Result<String, ParsingError>,
    ) -> bool {
        match field_bytes(bytes, pointer.index as int, pointer.size as int) {
            Err(e) => r == Err::<String, ParsingError>(e),
            Ok(field) => if valid_utf8(field) {
                r matches Ok(text) && text@ == decode_utf8(field)
            } else {
                r == Err::<String, ParsingError>(ParsingError::Utf8Error(utf8_error_of(field)))
            },
        }
    }

    open spec fn spec_csif_into(&self) -> Seq<u8> {
        encode_utf8(self@)
    }

    /// Reads the bytes that `sized_pointer` names as UTF-8. Bytes that are not
    /// valid UTF-8 give an error and never a part of the text.
    fn csif_from(slice: &Vec<u8>, sized_pointer: SizedPointer) -> (r: Result<String, ParsingError>)
        ensures
            sized_pointer.spec_fits(slice@.len()) && valid_utf8(sized_pointer.spec_named(slice@))
                ==> (r matches Ok(text) && text@ == decode_utf8(sized_pointer.spec_named(slice@))),
            sized_pointer.spec_fits(slice@.len()) && !valid_utf8(sized_pointer.spec_named(slice@))
                ==> r == Err::<String, ParsingError>(
                ParsingError::Utf8Error(utf8_error_of(sized_pointer.spec_named(slice@))),
            ),
    {
        let start: usize = sized_pointer.index;
        let size: usize = sized_pointer.size;
        if start > slice.len() || slice.len() - start < size {
            return Err(ParsingError::OutOfBounds(sized_pointer.as_range()));
        }
        let field: &[u8] = slice_subrange(slice.as_slice(), start, start + size);
        let checked: Result<&str, Utf8Error> = std::str::from_utf8(field);
        proof {
            if let Ok(text) = checked {
                encode_utf8_decode_utf8(text@);
            }
        }
        text_of_checked(checked)
    }

    /// The UTF-8 bytes of the text, with no length before them and no
    /// terminator after them.
    fn csif_into(&self) -> (out: Vec<u8>) {
        slice_to_vec(self.as_str().as_bytes())
    }
}

} // verus!
