//! X25519 key pairs, shared keys, and messages sealed under them.

use vstd::prelude::*;

use crate::chance::{drawn_bytes, drawn_nonce, fresh_bytes, fresh_nonce};
use crate::error::{bytes_result, AppError, AppResult, Failure};
use crate::outside::{
    aes_gcm_open, aes_gcm_opened, aes_gcm_seal, aes_gcm_sealed, basepoint, public_key,
    x25519_mul, x25519_value, MAX_MESSAGE_LEN,
};

verus! {

/// The key pair that the server makes for one device.
#[derive(Debug)]
pub struct IdentityKeys {
    pub server_private_key: Vec<u8>,
    pub server_public_key: Vec<u8>,
}

// ---------------------------------------------------------------------------
// Keys
// ---------------------------------------------------------------------------

/// Thirty-two bytes with the bits that X25519 fixes set and cleared.
pub open spec fn clamped(raw: Seq<u8>) -> Seq<u8> {
    raw.update(0, raw[0] & 248).update(31, (raw[31] & 127) | 64)
}

/// Whether the fixed bits of a private key stand as they should: a multiple of
/// eight whose highest bit but one is the last that is set.
pub open spec fn is_clamped(key: Seq<u8>) -> bool {
    &&& key.len() == 32
    &&& key[0] % 8 == 0
    &&& 64 <= key[31] < 128
}

/// Clamping any thirty-two bytes gives a well-formed private key.
pub proof fn lemma_clamped(raw: Seq<u8>)
    requires
        raw.len() == 32,
    ensures
        is_clamped(clamped(raw)),
{
    let a = raw[0];
    let b = raw[31];
    assert((a & 248) % 8 == 0) by (bit_vector);
    assert(64 <= ((b & 127) | 64) && ((b & 127) | 64) < 128) by (bit_vector);
}

/// The X25519 base point.
fn basepoint_bytes() -> (r: [u8; 32])
    ensures
        r@ == basepoint(),
{
    let mut p: [u8; 32] = [0u8; 32];
    p[0] = 9;
    assert(p@ =~= basepoint());
    p
}

/// The key pair of thirty-two random bytes.
pub fn identity_keys_from(raw: [u8; 32]) -> (keys: IdentityKeys)
    ensures
        keys.server_private_key@ == clamped(raw@),
        keys.server_public_key@ == public_key(clamped(raw@)),
        keys.server_public_key@.len() == 32,
{
    let mut private: [u8; 32] = raw;
    private[0] = raw[0] & 248;
    private[31] = (raw[31] & 127) | 64;
    assert(private@ =~= clamped(raw@));
    let public = x25519_mul(private, basepoint_bytes());
    IdentityKeys { server_private_key: key_vec(&private), server_public_key: key_vec(&public) }
}

/// Whether a key pair was made of key material that was drawn.
pub open spec fn drawn_keys(keys: IdentityKeys) -> bool {
    exists|raw: Seq<u8>|
        {
            &&& #[trigger] drawn_bytes(raw)
            &&& raw.len() == 32
            &&& keys.server_private_key@ == clamped(raw)
        }
}

/// Makes a fresh key pair.
pub fn generate_identity_keys() -> (keys: IdentityKeys)
    ensures
        drawn_keys(keys),
        is_clamped(keys.server_private_key@),
        keys.server_public_key@ == public_key(keys.server_private_key@),
        keys.server_public_key@.len() == 32,
{
    let raw = fresh_bytes();
    proof {
        lemma_clamped(raw@);
    }
    identity_keys_from(raw)
}

/// The bytes of a key as a vector.
pub fn key_vec(key: &[u8; 32]) -> (r: Vec<u8>)
    ensures
        r@ == key@,
{
    let mut v: Vec<u8> = Vec::new();
    let mut i: usize = 0;
    while i < 32
        invariant
            i <= 32,
            v@ == key@.take(i as int),
        decreases 32 - i,
    {
        v.push(key[i]);
        assert(key@.take(i + 1) =~= key@.take(i as int).push(key@[i as int]));
        i += 1;
    }
    assert(key@.take(32) =~= key@);
    v
}

/// A byte string as a key, where it has the length of one.
pub fn key_array(bytes: &[u8]) -> (r: Option<[u8; 32]>)
    ensures
        r is Some <==> bytes@.len() == 32,
        r matches Some(k) ==> k@ == bytes@,
{
    if bytes.len() != 32 {
        return None;
    }
    let mut k: [u8; 32] = [0u8; 32];
    let mut i: usize = 0;
    while i < 32
        invariant
            i <= 32,
            bytes@.len() == 32,
            forall|j: int| 0 <= j < i ==> k@[j] == bytes@[j],
        decreases 32 - i,
    {
        k[i] = bytes[i];
        i += 1;
    }
    assert(k@ =~= bytes@);
    Some(k)
}

/// The key that two parties share, or what is wrong with the keys given.
pub open spec fn shared_key(my_private: Seq<u8>, peer_public: Seq<u8>) -> Result<
    Seq<u8>,
    Failure,
> {
    if my_private.len() != 32 {
        Err(Failure::Crypto("invalid private key length"@))
    } else if peer_public.len() != 32 {
        Err(Failure::Crypto("invalid public key length"@))
    } else {
        Ok(x25519_value(my_private, peer_public))
    }
}

/// The value of a result that carries a key.
pub open spec fn key_result(r: AppResult<[u8; 32]>) -> Result<Seq<u8>, Failure> {
    match r {
        Ok(k) => Ok(k@),
        Err(e) => Err(e@),
    }
}

/// Derives the key shared with a peer. Where the peer's public key belongs to
/// some private key, its holder derives the same key from this side's public
/// key.
pub fn derive_shared_key(my_private: &[u8], peer_public: &[u8]) -> (r: AppResult<[u8; 32]>)
    ensures
        key_result(r) == shared_key(my_private@, peer_public@),
        r matches Ok(k) ==> forall|other: Seq<u8>|
            other.len() == 32 && peer_public@ == #[trigger] public_key(other) ==> k@
                == x25519_value(other, public_key(my_private@)),
{
    let private = match key_array(my_private) {
        Some(k) => k,
        None => return Err(AppError::Crypto("invalid private key length".to_string())),
    };
    let public = match key_array(peer_public) {
        Some(k) => k,
        None => return Err(AppError::Crypto("invalid public key length".to_string())),
    };
    Ok(x25519_mul(private, public))
}

// ---------------------------------------------------------------------------
// Sealed messages
// ---------------------------------------------------------------------------

/// What a message too long for the cipher fails with.
pub open spec fn seal_failure() -> Failure {
    Failure::Crypto("encryption failed: aead::Error"@)
}

/// Whether a blob is a nonce of twelve bytes with the sealed plaintext behind
/// it, which opens to that plaintext again. What is longer than the longest
/// message cannot be sealed.
pub open spec fn is_sealed(blob: Seq<u8>, key: Seq<u8>, plaintext: Seq<u8>) -> bool {
    &&& plaintext.len() <= MAX_MESSAGE_LEN
    &&& blob.len() == plaintext.len() + 28
    &&& blob == blob.take(12) + aes_gcm_sealed(key, blob.take(12), plaintext)
    &&& opened(blob, key) == Ok::<Seq<u8>, Failure>(plaintext)
}

/// What opening a blob under a key gives.
pub open spec fn opened(blob: Seq<u8>, key: Seq<u8>) -> Result<Seq<u8>, Failure> {
    if blob.len() < 12 {
        Err(Failure::Crypto("encrypted data too short"@))
    } else {
        match aes_gcm_opened(key, blob.take(12), blob.skip(12)) {
            Some(plaintext) => Ok(plaintext),
            None => Err(Failure::Crypto("decryption failed: aead::Error"@)),
        }
    }
}

/// Seals a message under a key with a given nonce.
pub fn seal_with_nonce(data: &[u8], shared_key: &[u8; 32], nonce: &[u8; 12]) -> (r: AppResult<
    Vec<u8>,
>)
    ensures
        match r {
            Ok(blob) => {
                &&& data@.len() <= MAX_MESSAGE_LEN
                &&& blob@ == nonce@ + aes_gcm_sealed(shared_key@, nonce@, data@)
                &&& is_sealed(blob@, shared_key@, data@)
            },
            Err(e) => data@.len() > MAX_MESSAGE_LEN && e@ == seal_failure(),
        },
{
    if data.len() as u64 > MAX_MESSAGE_LEN {
        return Err(AppError::Crypto("encryption failed: aead::Error".to_string()));
    }
    let ciphertext = match aes_gcm_seal(shared_key, nonce, data) {
        Some(c) => c,
        None => return Err(AppError::Crypto("encryption failed: aead::Error".to_string())),
    };
    let mut blob: Vec<u8> = Vec::new();
    let mut i: usize = 0;
    while i < 12
        invariant
            i <= 12,
            blob@ == nonce@.take(i as int),
        decreases 12 - i,
    {
        blob.push(nonce[i]);
        assert(nonce@.take(i + 1) =~= nonce@.take(i as int).push(nonce@[i as int]));
        i += 1;
    }
    assert(nonce@.take(12) =~= nonce@);
    let mut rest = ciphertext;
    let ghost sealed = rest@;
    blob.append(&mut rest);
    assert(blob@ == nonce@ + sealed);
    assert(blob@.take(12) =~= nonce@);
    assert(blob@.skip(12) =~= sealed);
    Ok(blob)
}

/// Seals a message under a key, with a fresh nonce in front.
pub fn encrypt_with_shared_key(data: &[u8], shared_key: &[u8; 32]) -> (r: AppResult<Vec<u8>>)
    ensures
        match r {
            Ok(blob) => {
                &&& data@.len() <= MAX_MESSAGE_LEN
                &&& is_sealed(blob@, shared_key@, data@)
                &&& drawn_nonce(blob@.take(12))
            },
            Err(e) => data@.len() > MAX_MESSAGE_LEN && e@ == seal_failure(),
        },
{
    let nonce = fresh_nonce();
    let r = seal_with_nonce(data, shared_key, &nonce);
    assert(r matches Ok(blob) ==> blob@.take(12) =~= nonce@);
    r
}

/// Opens a message that was sealed under a key.
pub fn decrypt_with_shared_key(data: &[u8], shared_key: &[u8; 32]) -> (r: AppResult<Vec<u8>>)
    ensures
        bytes_result(r) == opened(data@, shared_key@),
        r matches Ok(p) ==> p@.len() + 28 == data@.len(),
{
    if data.len() < 12 {
        return Err(AppError::Crypto("encrypted data too short".to_string()));
    }
    let (nonce_bytes, ciphertext) = data.split_at(12);
    let mut nonce: [u8; 12] = [0u8; 12];
    let mut i: usize = 0;
    while i < 12
        invariant
            i <= 12,
            nonce_bytes@.len() == 12,
            forall|j: int| 0 <= j < i ==> nonce@[j] == nonce_bytes@[j],
        decreases 12 - i,
    {
        nonce[i] = nonce_bytes[i];
        i += 1;
    }
    assert(nonce@ =~= data@.take(12));
    assert(ciphertext@ =~= data@.skip(12));
    match aes_gcm_open(shared_key, &nonce, ciphertext) {
        Some(p) => Ok(p),
        None => Err(AppError::Crypto("decryption failed: aead::Error".to_string())),
    }
}

} // verus!
