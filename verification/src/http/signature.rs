//! The signature of a query: HMAC-SHA256 under the secret key, in lower-case
//! hexadecimal.

use crate::text::{byte_len, lemma_lower_hex_len, lower_hex, to_lower_hex};
use vstd::prelude::*;
use vstd::utf8::encode_utf8;

verus! {

/// The HMAC-SHA256 tag of `data` under `key`, as RFC 2104 defines it: 32
/// bytes, whatever the key and the data.
pub uninterp spec fn hmac_sha256(key: Seq<u8>, data: Seq<u8>) -> [u8; 32];

/// The most bytes that a key or a message may have: SHA-256 counts its input
/// in 64 bits, by the bit, and HMAC puts one block of 64 bytes before the
/// message.
pub const HMAC_MAX_INPUT: u64 = 0x1FFF_FFFF_FFFF_FFBF;

/// The number of bytes in a tag.
pub const TAG_BYTES: usize = 32;

/// The signature of a query under a secret key.
pub open spec fn signature(secret: Seq<char>, query: Seq<char>) -> Seq<char> {
    lower_hex(hmac_sha256(encode_utf8(secret), encode_utf8(query))@)
}

/// A signature has 64 characters, whatever was signed and under which key.
pub proof fn lemma_signature_len(secret: Seq<char>, query: Seq<char>)
    ensures
        signature(secret, query).len() == 2 * TAG_BYTES,
{
    let tag = hmac_sha256(encode_utf8(secret), encode_utf8(query));
    vstd::array::array_len_matches_n(&tag);
    lemma_lower_hex_len(tag@);
}

/// `ring::hmac::sign` with a key made by `ring::hmac::Key::new` for
/// `HMAC_SHA256`: the tag is that of HMAC-SHA256, 32 bytes long. Both calls
/// panic on an input that is too long for SHA-256 to count.
#[verifier::external_body]
fn hmac_sha256_tag(key: &[u8], data: &[u8]) -> (tag: Vec<u8>)
    requires
        key@.len() <= HMAC_MAX_INPUT,
        data@.len() <= HMAC_MAX_INPUT,
    ensures
        tag@ == hmac_sha256(key@, data@)@,
{
    let key = ring::hmac::Key::new(ring::hmac::HMAC_SHA256, key);
    ring::hmac::sign(&key, data).as_ref().to_vec()
}

/// Signs a query with a secret key.
pub fn sign(secret: &str, query: &str) -> (hex: String)
    requires
        byte_len(secret@) <= HMAC_MAX_INPUT,
        byte_len(query@) <= HMAC_MAX_INPUT,
    ensures
        hex@ == signature(secret@, query@),
        hex@.len() == 2 * TAG_BYTES,
{
    proof {
        lemma_signature_len(secret@, query@);
    }
    let tag = hmac_sha256_tag(secret.as_bytes(), query.as_bytes());
    to_lower_hex(tag.as_slice())
}

} // verus!
