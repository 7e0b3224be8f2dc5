//! Decoding a `/collect` body as a single JSON value, through `serde_json`.
//!
//! Whether a byte sequence is one complete JSON value, and the
//! pretty-printed text of that value, are functions of the bytes alone;
//! they are named here rather than written out, and the one trusted wrapper
//! relates the real decoder to the names.

use vstd::prelude::*;

verus! {

/// Whether `serde_json` parses `b` as exactly one complete JSON value.
pub uninterp spec fn parses_as_json(b: Seq<u8>) -> bool;

/// The pretty-printed text of the JSON value that `b` parses as.
pub uninterp spec fn json_pretty_of(b: Seq<u8>) -> Seq<u8>;

/// Relies on `serde_json::from_slice::<serde_json::Value>`, which accepts a
/// byte sequence exactly when it is one complete JSON value, and on
/// `serde_json::to_string_pretty`, which renders a `Value` as pretty-printed
/// JSON text and cannot fail on a `Value` (its maps have string keys and its
/// serialiser never errors). Both results depend on the bytes alone.
#[verifier::external_body]
pub(crate) fn decode_json_pretty(b: &Vec<u8>) -> (r: Option<Vec<u8>>)
    ensures
        (r is Some) == parses_as_json(b@),
        r matches Some(line) ==> line@ == json_pretty_of(b@),
{
    match serde_json::from_slice::<serde_json::Value>(b.as_slice()) {
        Ok(v) => match serde_json::to_string_pretty(&v) {
            Ok(s) => Some(s.into_bytes()),
            Err(_) => None,
        },
        Err(_) => None,
    }
}

} // verus!
