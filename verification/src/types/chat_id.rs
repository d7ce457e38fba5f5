//! Chat ids that the table stores as UUIDs.
//!
//! The relay works with chat ids as text. A table that stores them as the
//! 16 bytes of a UUID has them written out in the UUID's usual form, and
//! read back for the key of a delete.

use vstd::prelude::*;

verus! {

/// The text that the `uuid` crate shows for the UUID with these 16 bytes.
pub uninterp spec fn uuid_text(bytes: Seq<u8>) -> Seq<char>;

/// The 16 bytes of the UUID that the `uuid` crate reads from `text`; `None`
/// where it reads none.
pub uninterp spec fn uuid_bytes(text: Seq<char>) -> Option<Seq<u8>>;

/// Calls `Uuid::from_bytes` of the `uuid` crate and shows the UUID through
/// its `Display`. The contract names the returned text [`uuid_text`] of the
/// bytes.
#[verifier::external_body]
pub(crate) fn show_uuid(bytes: &[u8; 16]) -> (text: String)
    ensures
        text@ == uuid_text(bytes@),
{
    uuid::Uuid::from_bytes(*bytes).to_string()
}

/// Calls `Uuid::parse_str` of the `uuid` crate and takes the bytes of the
/// UUID that it returns. The contract names the outcome [`uuid_bytes`] of
/// the text: the bytes where the call succeeds, `None` where it fails.
#[verifier::external_body]
pub(crate) fn read_uuid(text: &str) -> (bytes: Option<[u8; 16]>)
    ensures
        match bytes {
            Some(found) => uuid_bytes(text@) == Some(found@),
            None => uuid_bytes(text@) is None,
        },
{
    match uuid::Uuid::parse_str(text) {
        Ok(id) => Some(id.into_bytes()),
        Err(_) => None,
    }
}

} // verus!
