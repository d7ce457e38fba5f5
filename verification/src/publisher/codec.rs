//! The encodings that the relay takes from other crates.
//!
//! Nothing in this file is proved. Each function makes one call into another
//! crate, and its contract names what that call returns.

use vstd::prelude::*;
use crate::publisher::frame::varint;

verus! {

/// The text that `base64`'s standard engine, with padding, makes of `data`.
pub uninterp spec fn base64_text(data: Seq<u8>) -> Seq<char>;

/// The JSON string literal, quotes included, that `serde_json` writes for
/// `text`.
pub uninterp spec fn json_string(text: Seq<char>) -> Seq<char>;

/// Whether `prost` reads `bytes` to the end as a sequence of well-formed
/// protocol-buffer fields.
pub uninterp spec fn well_formed_fields(bytes: Seq<u8>) -> bool;

/// The 64 bits of a signed number in two's complement, read as an unsigned
/// number.
pub open spec fn unsigned_bits(value: int) -> nat {
    if value < 0 {
        (value + 0x1_0000_0000_0000_0000) as nat
    } else {
        value as nat
    }
}

/// The bytes of the well-known timestamp message with these two fields: the
/// seconds as field 1 and the nanoseconds as field 2, each a key byte and
/// the varint of the number's 64 bits, and each left out where it is zero.
pub open spec fn timestamp_wire(seconds: i64, nanos: i32) -> Seq<u8> {
    (if seconds == 0 {
        Seq::<u8>::empty()
    } else {
        seq![0x08u8] + varint(unsigned_bits(seconds as int))
    }) + (if nanos == 0 {
        Seq::<u8>::empty()
    } else {
        seq![0x10u8] + varint(unsigned_bits(nanos as int))
    })
}

/// The longest input whose base64 text still fits into one allocation.
pub open spec fn base64_input_limit() -> int {
    isize::MAX / 4 * 3
}

/// The error type of `serde_json`.
#[verifier::external_type_specification]
#[verifier::external_body]
pub struct ExJsonError(serde_json::Error);

/// Calls `Engine::encode` of the `base64` crate on its engine
/// `BASE64_STANDARD`. The contract names the returned text [`base64_text`] of
/// the input. The call panics where the length of the text overflows, which
/// the `requires` rules out.
#[verifier::external_body]
pub(crate) fn base64_standard(data: &[u8]) -> (text: String)
    requires
        data@.len() <= base64_input_limit(),
    ensures
        text@ == base64_text(data@),
{
    base64::Engine::encode(&base64::prelude::BASE64_STANDARD, data)
}

/// Calls `serde_json::to_string` on a string slice. The contract claims
/// that the call succeeds, and names the returned literal [`json_string`] of
/// the input. For a string the call writes the literal into a vector of its
/// own and can report nothing but an error of that writer, which a vector
/// never gives.
#[verifier::external_body]
pub(crate) fn json_quote(text: &str) -> (quoted: Result<String, serde_json::Error>)
    ensures
        quoted is Ok,
        quoted->Ok_0@ == json_string(text@),
{
    serde_json::to_string(text)
}

/// Calls `prost::Message::decode` for the empty message `()`, which skips
/// every field that it reads and fails on the first that is malformed. The
/// contract names whether the call succeeded [`well_formed_fields`] of the
/// input.
#[verifier::external_body]
pub(crate) fn fields_are_well_formed(bytes: &[u8]) -> (ok: bool)
    ensures
        ok == well_formed_fields(bytes@),
{
    <() as prost::Message>::decode(bytes).is_ok()
}

/// Calls `prost::Message::encode_to_vec` on a `prost_types::Timestamp` with
/// the two fields given. The contract states the returned bytes: what
/// `prost` writes for two plain integer fields, as [`timestamp_wire`] spells
/// out.
#[verifier::external_body]
pub(crate) fn timestamp_bytes(seconds: i64, nanos: i32) -> (bytes: Vec<u8>)
    ensures
        bytes@ == timestamp_wire(seconds, nanos),
{
    prost::Message::encode_to_vec(&prost_types::Timestamp { seconds, nanos })
}

} // verus!
