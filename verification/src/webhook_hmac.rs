//! Webhook HMAC signing: HMAC-SHA256 over a canonical string, rendered as
//! lowercase hex.

use vstd::prelude::*;
use hmac::{Hmac, Mac};
use sha2::Sha256;
use vstd::string::StringSliceAdditionalSpecFns;
use crate::text::{hex_digit, hex_digit_char, hex_of_bytes, push_char};

verus! {

/// Environment variable name for the local-dev HMAC secret.
pub const WEBHOOK_HMAC_SECRET_ENV_VAR: &'static str = "INTENT_API_WEBHOOK_HMAC_SECRET";

/// The 32-byte HMAC-SHA256 tag of `data` under `key`.
pub uninterp spec fn hmac_sha256_tag(key: Seq<u8>, data: Seq<u8>) -> Seq<u8>;

/// HMAC-SHA256 of `data` under `key`, through `hmac::Mac` for `Hmac<Sha256>`
/// (`new_from_slice`, `update`, `finalize`). The contract claims that key
/// setup accepts every key length (HMAC hashes long keys and pads short
/// ones), and that the tag is the 32-byte SHA-256 output named
/// `hmac_sha256_tag` of the key and data bytes.
#[verifier::external_body]
fn hmac_sha256(key: &[u8], data: &[u8]) -> (r: Result<Vec<u8>, String>)
    ensures
        r is Ok,
        r matches Ok(tag) ==> tag@ == hmac_sha256_tag(key@, data@) && tag@.len() == 32,
{
    let mut mac = match Hmac::<Sha256>::new_from_slice(key) {
        Ok(m) => m,
        Err(e) => return Err(e.to_string()),
    };
    mac.update(data);
    Ok(mac.finalize().into_bytes().to_vec())
}

/// Encodes bytes as a lowercase hex string, two digits per byte.
pub fn hex_encode(data: &[u8]) -> (s: String)
    ensures
        s@ == hex_of_bytes(data@),
{
    let mut s = String::new();
    for i in 0..data.len()
        invariant
            s@ == hex_of_bytes(data@.take(i as int)),
    {
        let b = data[i];
        push_char(&mut s, hex_digit_char(b / 16));
        push_char(&mut s, hex_digit_char(b % 16));
        assert(data@.take(i + 1).drop_last() == data@.take(i as int));
    }
    assert(data@.take(data.len() as int) == data@);
    s
}

/// The canonical string that is signed: `<timestamp>.<delivery_id>.<body>`.
pub open spec fn canonical_string(timestamp: Seq<char>, delivery_id: Seq<char>, body: Seq<char>) -> Seq<char> {
    timestamp + seq!['.'] + delivery_id + seq!['.'] + body
}

/// Builds the canonical string to sign for a webhook payload.
pub fn build_canonical_string(timestamp: &str, delivery_id: &str, body: &str) -> (s: String)
    ensures
        s@ == canonical_string(timestamp@, delivery_id@, body@),
{
    let mut s = String::from_str(timestamp);
    push_char(&mut s, '.');
    s.append(delivery_id);
    push_char(&mut s, '.');
    s.append(body);
    s
}

/// Signs a canonical payload string with HMAC-SHA256 under `secret` and
/// returns the tag as lowercase hex (64 characters).
pub fn sign_payload(secret: &str, payload: &str) -> (r: Result<String, String>)
    ensures
        r matches Ok(sig) && sig@ == hex_of_bytes(
            hmac_sha256_tag(secret.spec_bytes(), payload.spec_bytes()),
        ) && sig@.len() == 64,
{
    match hmac_sha256(secret.as_bytes(), payload.as_bytes()) {
        Ok(tag) => {
            proof {
                crate::text::lemma_hex_of_bytes_len(tag@);
            }
            Ok(hex_encode(tag.as_slice()))
        },
        Err(e) => {
            let mut msg = String::from_str("HMAC init error: ");
            msg.append(e.as_str());
            Err(msg)
        },
    }
}

} // verus!
