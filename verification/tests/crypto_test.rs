//! Keys, sealed messages and digests, against published values.

use password_manager_server::client;
use password_manager_server::crypto::encrypt::{decrypt_db, encrypt_db};
use password_manager_server::crypto::hash_token;
use password_manager_server::crypto::keys::{
    decrypt_with_shared_key, derive_shared_key, encrypt_with_shared_key, generate_identity_keys,
    identity_keys_from, key_array, key_vec, seal_with_nonce,
};
use password_manager_server::error::AppResult;

fn text_of<T>(r: AppResult<T>) -> String {
    match r {
        Ok(_) => "ok".to_string(),
        Err(e) => e.text(),
    }
}

#[test]
fn shared_key_matches_a_published_value() {
    let scalar =
        hex::decode("a546e36bf0527c9d3b16154b82465edd62144c0ac1fc5a18506a2244ba449ac4").unwrap();
    let point =
        hex::decode("e6db6867583030db3594c1a424b15f7c726624ec26b3353b10a903a6d0ab1c4c").unwrap();
    let key = derive_shared_key(&scalar, &point).unwrap();
    assert_eq!(
        hex::encode(key),
        "c3da55379de9c6908e94ea4df28d084f32eccf03491c71f754b4075577a28552"
    );
}

#[test]
fn both_sides_derive_one_key() {
    let server = generate_identity_keys();
    let device = generate_identity_keys();
    let here = derive_shared_key(&server.server_private_key, &device.server_public_key).unwrap();
    let there = derive_shared_key(&device.server_private_key, &server.server_public_key).unwrap();
    assert_eq!(here, there);
    assert_ne!(server.server_private_key, device.server_private_key);
}

#[test]
fn keys_of_the_wrong_length_are_refused() {
    let key = [1u8; 32];
    assert_eq!(
        text_of(derive_shared_key(&key[..31], &key)),
        "crypto error: invalid private key length"
    );
    assert_eq!(
        text_of(derive_shared_key(&key, &[2u8; 33])),
        "crypto error: invalid public key length"
    );
    assert_eq!(key_array(&[0u8; 31]), None);
    assert_eq!(key_array(&key_vec(&key)), Some(key));
}

#[test]
fn private_keys_are_clamped() {
    let keys = identity_keys_from([0xff; 32]);
    assert_eq!(keys.server_private_key[0], 0xf8);
    assert_eq!(keys.server_private_key[31], 0x7f);
    assert_eq!(keys.server_private_key[15], 0xff);
    let keys = identity_keys_from([0x00; 32]);
    assert_eq!(keys.server_private_key[0], 0x00);
    assert_eq!(keys.server_private_key[31], 0x40);
    let private: [u8; 32] = keys.server_private_key.clone().try_into().unwrap();
    let mut basepoint = [0u8; 32];
    basepoint[0] = 9;
    assert_eq!(keys.server_public_key, x25519_dalek::x25519(private, basepoint).to_vec());
}

#[test]
fn sealing_matches_a_published_value() {
    let sealed = seal_with_nonce(&[], &[0u8; 32], &[0u8; 12]).unwrap();
    assert_eq!(hex::encode(&sealed[12..]), "530f8afbc74536b9a963b4f1c4cb738b");
    let sealed = seal_with_nonce(&[0u8; 16], &[0u8; 32], &[0u8; 12]).unwrap();
    assert_eq!(sealed[..12], [0u8; 12]);
    assert_eq!(
        hex::encode(&sealed[12..]),
        "cea7403d4d606b6e074ec5d3baf39d18d0d1c8a799996bf0265b98b5d48ab919"
    );
}

#[test]
fn sealed_messages_open_again() {
    let key = [7u8; 32];
    let first = encrypt_with_shared_key(b"hello", &key).unwrap();
    let second = encrypt_with_shared_key(b"hello", &key).unwrap();
    assert_eq!(first.len(), 5 + 28);
    assert_ne!(first, second, "every message has its own nonce");
    assert_eq!(decrypt_with_shared_key(&first, &key).unwrap(), b"hello");
    assert_eq!(decrypt_with_shared_key(&second, &key).unwrap(), b"hello");
    let stored = encrypt_db(b"hello", &key).unwrap();
    assert_eq!(decrypt_db(&stored, &key).unwrap(), b"hello");
}

#[test]
fn broken_messages_do_not_open() {
    let key = [7u8; 32];
    assert_eq!(
        text_of(decrypt_with_shared_key(&[0u8; 11], &key)),
        "crypto error: encrypted data too short"
    );
    assert_eq!(
        text_of(decrypt_with_shared_key(&[0u8; 12], &key)),
        "crypto error: decryption failed: aead::Error"
    );
    let mut sealed = encrypt_with_shared_key(b"hello", &key).unwrap();
    assert_eq!(
        text_of(decrypt_with_shared_key(&sealed, &[8u8; 32])),
        "crypto error: decryption failed: aead::Error"
    );
    sealed[20] ^= 1;
    assert_eq!(
        text_of(decrypt_with_shared_key(&sealed, &key)),
        "crypto error: decryption failed: aead::Error"
    );
}

#[test]
fn token_digest_matches_a_published_value() {
    assert_eq!(
        hash_token("abc"),
        "ba7816bf8f01cfea414140de5dae2223b00361a396177a9cb410ff61f20015ad"
    );
    assert_eq!(
        hash_token(""),
        "e3b0c44298fc1c149afbf4c8996fb92427ae41e4649b934ca495991b7852b855"
    );
}

#[test]
fn a_device_reads_what_it_sealed() {
    let server = generate_identity_keys();
    let device = client::generate_client_keypair();
    let request = client::greet_request(&device.server_public_key);
    assert_eq!(request.pub_key, hex::encode(&device.server_public_key));
    let answer = hex::encode(&server.server_public_key);
    let key = client::derive_key(&device.server_private_key, &answer).unwrap();
    let sealed = client::seal_hex(b"secret", &key).unwrap();
    assert_eq!(client::open_hex(&sealed, &key).unwrap(), b"secret");
    assert_eq!(text_of(client::open_hex("0", &key)), "validation error: invalid hex");
    assert_eq!(
        text_of(client::derive_key(&device.server_private_key, "zz")),
        "validation error: invalid server_public_key hex"
    );
    let sign = client::sign_request("name", b"ehlo", &key).unwrap();
    assert_eq!(client::open_hex(&sign.name, &key).unwrap(), b"name");
    assert_eq!(client::open_hex(&sign.ehlo, &key).unwrap(), b"ehlo");
    let refresh = client::refresh_request("token", b"ehlo", &key).unwrap();
    assert_eq!(client::open_hex(&refresh.token, &key).unwrap(), b"token");
    assert_eq!(client::open_hex(&refresh.ehlo, &key).unwrap(), b"ehlo");
    let resign = client::resign_request("token", b"ehlo", &key).unwrap();
    assert_eq!(resign.token, hex::encode("token"));
    assert_eq!(client::open_hex(&resign.ehlo, &key).unwrap(), b"ehlo");
}
