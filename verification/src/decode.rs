//! Reading a native string field as text.

use crate::handle::field_bytes;
use crate::native::NativeString;
use vstd::prelude::*;
use vstd::string::StringSliceAdditionalSpecFns;
use vstd::utf8::{decode_utf8, encode_utf8_decode_utf8, valid_utf8};

verus! {

/// Why a string field could not be read as text.
#[derive(Clone, Copy, Debug, PartialEq, Eq, Structural)]
pub enum DecodeError {
    /// The field holds no string at all.
    Missing,
    /// The bytes of the field are not UTF-8.
    InvalidUtf8,
}

/// The text that a string field holds: its bytes decoded as UTF-8, with
/// nothing replaced and nothing dropped.
pub open spec fn decoded(field: Option<Seq<u8>>) -> Result<Seq<char>, DecodeError> {
    match field {
        None => Err(DecodeError::Missing),
        Some(bytes) => if valid_utf8(bytes) {
            Ok(decode_utf8(bytes))
        } else {
            Err(DecodeError::InvalidUtf8)
        },
    }
}

/// `core::str::Utf8Error`, carried from the decoder to the caller unread.
#[verifier::external_type_specification]
#[verifier::external_body]
pub struct ExUtf8Error(core::str::Utf8Error);

/// `core::str::from_utf8`. Trusted: it answers `Ok` exactly on well-formed
/// UTF-8, and the string it hands back is the given bytes, reinterpreted.
#[verifier::external_body]
fn str_from_utf8(bytes: &[u8]) -> (out: Result<&str, core::str::Utf8Error>)
    ensures
        out is Ok <==> valid_utf8(bytes@),
        out matches Ok(s) ==> s.spec_bytes() == bytes@,
{
    core::str::from_utf8(bytes)
}

/// Reads a string field as text.
pub fn decode(field: &Option<NativeString>) -> (out: Result<&str, DecodeError>)
    ensures
        match out {
            Ok(s) => decoded(field_bytes(*field)) == Ok::<Seq<char>, DecodeError>(s@),
            Err(e) => decoded(field_bytes(*field)) == Err::<Seq<char>, DecodeError>(e),
        },
{
    match field {
        None => Err(DecodeError::Missing),
        Some(native) => match str_from_utf8(native.as_bytes()) {
            Ok(s) => {
                proof {
                    encode_utf8_decode_utf8(s@);
                }
                Ok(s)
            },
            Err(_) => Err(DecodeError::InvalidUtf8),
        },
    }
}

} // verus!
