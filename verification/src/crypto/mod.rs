//! Keys, sealed messages and token digests.

pub mod encrypt;
pub mod keys;

use vstd::prelude::*;
use vstd::utf8::encode_utf8;

use crate::outside::{hex_encode, hex_text, sha256, sha256_value};

verus! {

/// The form in which a device token is stored: the hexadecimal text of the
/// SHA-256 digest of its UTF-8 bytes.
pub open spec fn token_digest(token: Seq<char>) -> Seq<char> {
    hex_text(sha256_value(encode_utf8(token)))
}

/// Computes the stored form of a device token.
pub fn hash_token(token: &str) -> (r: String)
    ensures
        r@ == token_digest(token@),
        r@.len() == 64,
{
    let digest = sha256(token.as_bytes());
    hex_encode(digest.as_slice())
}

} // verus!
