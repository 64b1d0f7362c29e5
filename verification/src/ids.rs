//! Identifiers: UUIDs held as their 128-bit big-endian value.

use vstd::prelude::*;
use crate::text::{hex_of_bytes, lemma_hex_of_bytes_len};

verus! {

/// The 16 bytes of a UUID, most significant first.
pub open spec fn uuid_bytes(id: u128) -> Seq<u8> {
    Seq::new(16, |k: int| ((id >> (((15 - k) * 8) as u128)) & 0xffu128) as u8)
}

/// The hyphenated lowercase form `xxxxxxxx-xxxx-xxxx-xxxx-xxxxxxxxxxxx`.
pub open spec fn uuid_text(id: u128) -> Seq<char> {
    let b = uuid_bytes(id);
    hex_of_bytes(b.subrange(0, 4)) + seq!['-'] + hex_of_bytes(b.subrange(4, 6)) + seq!['-']
        + hex_of_bytes(b.subrange(6, 8)) + seq!['-'] + hex_of_bytes(b.subrange(8, 10))
        + seq!['-'] + hex_of_bytes(b.subrange(10, 16))
}

/// The hyphenated form has 36 characters.
pub proof fn lemma_uuid_text_len(id: u128)
    ensures
        uuid_text(id).len() == 36,
{
    let b = uuid_bytes(id);
    lemma_hex_of_bytes_len(b.subrange(0, 4));
    lemma_hex_of_bytes_len(b.subrange(4, 6));
    lemma_hex_of_bytes_len(b.subrange(6, 8));
    lemma_hex_of_bytes_len(b.subrange(8, 10));
    lemma_hex_of_bytes_len(b.subrange(10, 16));
}

/// `uuid::Uuid::from_u128(id).to_string()`: the `Display` form of a UUID,
/// which the uuid crate documents as the hyphenated lowercase form.
#[verifier::external_body]
pub fn uuid_string(id: u128) -> (s: String)
    ensures
        s@ == uuid_text(id),
{
    uuid::Uuid::from_u128(id).to_string()
}

/// `uuid::Uuid::new_v4().as_u128()`: a fresh random identifier. Nothing is
/// claimed of its value.
#[verifier::external_body]
pub fn new_uuid_v4() -> u128 {
    uuid::Uuid::new_v4().as_u128()
}

} // verus!
