//! What sealing, key agreement and the digests of tokens promise.

use vstd::prelude::*;
use vstd::utf8::encode_utf8;

use crate::chance::drawn_nonce;
use crate::crypto::encrypt::{decrypt_db, encrypt_db};
use crate::crypto::hash_token;
use crate::crypto::keys::{
    decrypt_with_shared_key, derive_shared_key, encrypt_with_shared_key, generate_identity_keys,
    identity_keys_from, IdentityKeys,
};
use crate::error::AppResult;
use crate::laws::plain::{lemma_plain, plain_of};
use crate::outside::{basepoint, hex_text, sha256_value, x25519_value};

verus! {

/// Whatever fits in a message is sealed behind a nonce that was drawn, and what
/// was sealed opens under the same key to what it was made of.
pub proof fn law_what_is_sealed_opens(
    data: &[u8],
    key: &[u8; 32],
    sealed: AppResult<Vec<u8>>,
    blob: &[u8],
    r: AppResult<Vec<u8>>,
)
    requires
        call_ensures(encrypt_with_shared_key, (data, key), sealed) || call_ensures(
            encrypt_db,
            (data, key),
            sealed,
        ),
        sealed is Ok ==> blob@ == sealed->Ok_0@,
        sealed is Ok ==> call_ensures(decrypt_with_shared_key, (blob, key), r) || call_ensures(
            decrypt_db,
            (blob, key),
            r,
        ),
    ensures
        sealed is Ok <==> data@.len() <= 68_719_476_736,
        sealed matches Err(e) ==> e@ is Crypto,
        sealed is Ok ==> {
            &&& blob@.len() == data@.len() + 28
            &&& drawn_nonce(blob@.take(12))
            &&& r is Ok
            &&& r->Ok_0@ == data@
        },
{
}

/// Bytes open exactly if they are a nonce of twelve bytes and something that was
/// sealed under that nonce and key.
pub proof fn law_opening_reads_nonce_and_ciphertext(
    blob: &[u8],
    key: &[u8; 32],
    r: AppResult<Vec<u8>>,
)
    requires
        call_ensures(decrypt_with_shared_key, (blob, key), r) || call_ensures(
            decrypt_db,
            (blob, key),
            r,
        ),
    ensures
        r is Ok <==> plain_of(blob@, key@) is Some,
        r matches Ok(data) ==> plain_of(blob@, key@) == Some(data@) && data@.len() + 28
            == blob@.len(),
        r matches Err(e) ==> e@ is Crypto,
{
    lemma_plain(blob@, key@);
}

/// Two parties that hand each other their public keys derive the same key.
pub proof fn law_both_sides_derive_the_same_key(
    here: IdentityKeys,
    there: IdentityKeys,
    here_private: &[u8],
    here_public: &[u8],
    there_private: &[u8],
    there_public: &[u8],
    a: AppResult<[u8; 32]>,
    b: AppResult<[u8; 32]>,
)
    requires
        call_ensures(generate_identity_keys, (), here),
        call_ensures(generate_identity_keys, (), there),
        here_private@ == here.server_private_key@,
        here_public@ == here.server_public_key@,
        there_private@ == there.server_private_key@,
        there_public@ == there.server_public_key@,
        call_ensures(derive_shared_key, (here_private, there_public), a),
        call_ensures(derive_shared_key, (there_private, here_public), b),
    ensures
        a is Ok,
        b is Ok,
        a->Ok_0@ == b->Ok_0@,
{
}

/// A key is derived from any two keys of thirty-two bytes, and from no others.
pub proof fn law_keys_have_32_bytes(
    private: &[u8],
    public: &[u8],
    r: AppResult<[u8; 32]>,
)
    requires
        call_ensures(derive_shared_key, (private, public), r),
    ensures
        r is Ok <==> private@.len() == 32 && public@.len() == 32,
        r matches Ok(key) ==> key@ == x25519_value(private@, public@),
        r matches Err(e) ==> e@ is Crypto,
{
}

/// A private key is the material it is made of but for five bits: the lowest
/// three and the highest are cleared, and the highest but one is set. Its public
/// key is that multiple of the point nine.
pub proof fn law_private_key_is_its_material(raw: [u8; 32], keys: IdentityKeys)
    requires
        call_ensures(identity_keys_from, (raw,), keys),
    ensures
        keys.server_private_key@.len() == 32,
        forall|i: int| 0 < i < 31 ==> #[trigger] keys.server_private_key@[i] == raw@[i],
        keys.server_private_key@[0] == raw@[0] - raw@[0] % 8,
        keys.server_private_key@[31] % 64 == raw@[31] % 64,
        64 <= keys.server_private_key@[31] < 128,
        keys.server_public_key@ == x25519_value(
            keys.server_private_key@,
            Seq::new(32, |i: int| if i == 0 { 9u8 } else { 0u8 }),
        ),
{
    let a = raw@[0];
    let b = raw@[31];
    assert((a & 248) == a - a % 8) by (bit_vector);
    assert(((b & 127) | 64) % 64 == b % 64) by (bit_vector);
    assert(64 <= ((b & 127) | 64) && ((b & 127) | 64) < 128) by (bit_vector);
    assert(basepoint() =~= Seq::new(32, |i: int| if i == 0 { 9u8 } else { 0u8 }));
}

/// A token is stored as the sixty-four hexadecimal digits of its SHA-256 digest.
pub proof fn law_tokens_are_stored_as_digests(token: &str, r: String)
    requires
        call_ensures(hash_token, (token,), r),
    ensures
        r@ == hex_text(sha256_value(encode_utf8(token@))),
        r@.len() == 64,
{
}

} // verus!
