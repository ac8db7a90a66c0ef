//! The other end: what a device sends and how it reads the answers.

use vstd::prelude::*;
use vstd::utf8::{encode_utf8, encode_utf8_decode_utf8, encode_utf8_valid_utf8};

use crate::chance::drawn_nonce;
use crate::console::flows::RawIdentity;
use crate::crypto::keys::{
    decrypt_with_shared_key, derive_shared_key, drawn_keys, encrypt_with_shared_key,
    generate_identity_keys, is_clamped, opened, seal_failure, shared_key, IdentityKeys,
};
use crate::crypto::token_digest;
use crate::domain::identity::Identity;
use crate::error::{bytes_result, AppError, AppResult, Failure};
use crate::outside::{
    hex_bytes, hex_decode, hex_encode, hex_text, is_hex, opt_text, public_key, MAX_MESSAGE_LEN,
};
use crate::routes::device_key;
use crate::routes::greet::{client_key, GreetRequest};
use crate::routes::refresh::{refresh_claim, RefreshRequest};
use crate::routes::resign::{resign_claim, resign_token, ResignRequest};
use crate::routes::signin::{credentials, sealed_text, SignRequest};
use crate::text::law_hex_round_trip;

verus! {

/// Makes the key pair of a device.
pub fn generate_client_keypair() -> (r: IdentityKeys)
    ensures
        drawn_keys(r),
        is_clamped(r.server_private_key@),
        r.server_public_key@ == public_key(r.server_private_key@),
        r.server_public_key@.len() == 32,
{
    generate_identity_keys()
}

/// The request with which a device greets the server.
pub fn greet_request(public: &Vec<u8>) -> (r: GreetRequest)
    ensures
        r.pub_key@ == hex_text(public@),
{
    GreetRequest { pub_key: hex_encode(public.as_slice()) }
}

/// The key that a device shares with the server, from its private key and the
/// answer to its greeting.
pub open spec fn greeted_key(private: Seq<u8>, server_public_key: Seq<char>) -> Result<
    Seq<u8>,
    Failure,
> {
    if !is_hex(server_public_key) {
        Err(Failure::Validation("invalid server_public_key hex"@))
    } else {
        shared_key(private, hex_bytes(server_public_key))
    }
}

/// Derives the key that a device shares with the server.
pub fn derive_key(private: &Vec<u8>, server_public_key: &str) -> (r: AppResult<[u8; 32]>)
    ensures
        match r {
            Ok(key) => greeted_key(private@, server_public_key@) == Ok::<Seq<u8>, Failure>(key@),
            Err(e) => greeted_key(private@, server_public_key@) == Err::<Seq<u8>, Failure>(e@),
        },
{
    match hex_decode(server_public_key) {
        Some(public) => derive_shared_key(private.as_slice(), public.as_slice()),
        None => Err(AppError::Validation("invalid server_public_key hex".to_string())),
    }
}

/// Seals bytes for the server.
pub fn seal_hex(data: &[u8], key: &[u8; 32]) -> (r: AppResult<String>)
    ensures
        match r {
            Ok(text) => {
                &&& data@.len() <= MAX_MESSAGE_LEN
                &&& sealed_text(text@, key@, data@)
                &&& drawn_nonce(hex_bytes(text@).take(12))
            },
            Err(e) => data@.len() > MAX_MESSAGE_LEN && e@ == seal_failure(),
        },
{
    match encrypt_with_shared_key(data, key) {
        Ok(sealed) => {
            proof {
                law_hex_round_trip(sealed@);
            }
            Ok(hex_encode(sealed.as_slice()))
        },
        Err(e) => Err(e),
    }
}

/// What a device reads in a text from the server.
pub open spec fn read_text(text: Seq<char>, key: Seq<u8>) -> Result<Seq<u8>, Failure> {
    if !is_hex(text) {
        Err(Failure::Validation("invalid hex"@))
    } else {
        opened(hex_bytes(text), key)
    }
}

/// Reads a text from the server.
pub fn open_hex(text: &str, key: &[u8; 32]) -> (r: AppResult<Vec<u8>>)
    ensures
        bytes_result(r) == read_text(text@, key@),
{
    match hex_decode(text) {
        Some(sealed) => decrypt_with_shared_key(sealed.as_slice(), key),
        None => Err(AppError::Validation("invalid hex".to_string())),
    }
}

/// The request with which a device signs up or in.
pub fn sign_request(name: &str, ehlo: &[u8], key: &[u8; 32]) -> (r: AppResult<SignRequest>)
    ensures
        match r {
            Ok(request) => {
                &&& sealed_text(request.name@, key@, encode_utf8(name@))
                &&& sealed_text(request.ehlo@, key@, ehlo@)
                &&& drawn_nonce(hex_bytes(request.name@).take(12))
                &&& drawn_nonce(hex_bytes(request.ehlo@).take(12))
            },
            Err(e) => e@ == seal_failure() && (encode_utf8(name@).len() > MAX_MESSAGE_LEN
                || ehlo@.len() > MAX_MESSAGE_LEN),
        },
{
    let name = match seal_hex(name.as_bytes(), key) {
        Ok(text) => text,
        Err(e) => return Err(e),
    };
    let ehlo = match seal_hex(ehlo, key) {
        Ok(text) => text,
        Err(e) => return Err(e),
    };
    Ok(SignRequest { name, ehlo })
}

/// The request with which a device refreshes its token.
pub fn refresh_request(token: &str, ehlo: &[u8], key: &[u8; 32]) -> (r: AppResult<RefreshRequest>)
    ensures
        match r {
            Ok(request) => {
                &&& sealed_text(request.token@, key@, encode_utf8(token@))
                &&& sealed_text(request.ehlo@, key@, ehlo@)
                &&& drawn_nonce(hex_bytes(request.token@).take(12))
                &&& drawn_nonce(hex_bytes(request.ehlo@).take(12))
            },
            Err(e) => e@ == seal_failure() && (encode_utf8(token@).len() > MAX_MESSAGE_LEN
                || ehlo@.len() > MAX_MESSAGE_LEN),
        },
{
    let token = match seal_hex(token.as_bytes(), key) {
        Ok(text) => text,
        Err(e) => return Err(e),
    };
    let ehlo = match seal_hex(ehlo, key) {
        Ok(text) => text,
        Err(e) => return Err(e),
    };
    Ok(RefreshRequest { token, ehlo })
}

/// The request with which a device re-signs.
pub fn resign_request(token: &str, ehlo: &[u8], key: &[u8; 32]) -> (r: AppResult<ResignRequest>)
    ensures
        match r {
            Ok(request) => {
                &&& request.token@ == hex_text(encode_utf8(token@))
                &&& sealed_text(request.ehlo@, key@, ehlo@)
                &&& drawn_nonce(hex_bytes(request.ehlo@).take(12))
            },
            Err(e) => e@ == seal_failure() && ehlo@.len() > MAX_MESSAGE_LEN,
        },
{
    let ehlo = match seal_hex(ehlo, key) {
        Ok(text) => text,
        Err(e) => return Err(e),
    };
    Ok(ResignRequest { token: hex_encode(token.as_bytes()), ehlo })
}

/// A device that greets with its public key is stored with that key.
pub proof fn law_greeting_carries_the_key(public: Seq<u8>)
    requires
        public.len() == 32,
    ensures
        client_key(hex_text(public)) == Ok::<Seq<u8>, Failure>(public),
{
    law_hex_round_trip(public);
}

/// The server reads the name and the secret that a device sealed under the key
/// that they share.
pub proof fn law_sign_request_is_read(
    request: SignRequest,
    name: Seq<char>,
    ehlo: Seq<u8>,
    key: Seq<u8>,
    device: Identity,
    secret: Seq<u8>,
)
    requires
        sealed_text(request.name@, key, encode_utf8(name)),
        sealed_text(request.ehlo@, key, ehlo),
        device_key(device, secret) == Ok::<Seq<u8>, Failure>(key),
    ensures
        credentials(Some(device), request.name@, request.ehlo@, secret) == Ok::<
            (Seq<char>, Seq<u8>),
            Failure,
        >((name, ehlo)),
{
    encode_utf8_valid_utf8(name);
    encode_utf8_decode_utf8(name);
}

/// The server takes a refresh from a device that holds its token, and finds its
/// account and the secret that the device sealed.
pub proof fn law_refresh_request_is_read(
    request: RefreshRequest,
    token: Seq<char>,
    ehlo: Seq<u8>,
    key: Seq<u8>,
    device: Identity,
    secret: Seq<u8>,
)
    requires
        sealed_text(request.token@, key, encode_utf8(token)),
        sealed_text(request.ehlo@, key, ehlo),
        device_key(device, secret) == Ok::<Seq<u8>, Failure>(key),
        opt_text(device.device_token) == Some(token_digest(token)),
        device.user_id is Some,
    ensures
        refresh_claim(Some(device), request.token@, request.ehlo@, secret) == Ok::<
            (Seq<char>, Seq<u8>),
            Failure,
        >((device.user_id->0@, ehlo)),
{
    encode_utf8_valid_utf8(token);
    encode_utf8_decode_utf8(token);
}

/// The server looks a device that re-signs up by its token, and finds its
/// account and the secret that the device sealed.
pub proof fn law_resign_request_is_read(
    request: ResignRequest,
    token: Seq<char>,
    ehlo: Seq<u8>,
    key: Seq<u8>,
    device: Identity,
    secret: Seq<u8>,
)
    requires
        request.token@ == hex_text(encode_utf8(token)),
        sealed_text(request.ehlo@, key, ehlo),
        device_key(device, secret) == Ok::<Seq<u8>, Failure>(key),
        device.user_id is Some,
    ensures
        resign_token(request.token@, request.ehlo@) == Ok::<Seq<char>, Failure>(token),
        resign_claim(Some(device), hex_bytes(request.ehlo@), secret) == Ok::<
            (Seq<char>, Seq<u8>),
            Failure,
        >((device.user_id->0@, ehlo)),
{
    law_hex_round_trip(encode_utf8(token));
    encode_utf8_valid_utf8(token);
    encode_utf8_decode_utf8(token);
}

// ---------------------------------------------------------------------------
// The smoke test
// ---------------------------------------------------------------------------

/// What follows an attempt to sign up.
#[derive(Clone, Copy, Debug, PartialEq, Eq, Structural)]
pub enum SignUpNext {
    Enrolled,
    SignIn,
    Failed,
}

/// Decides what follows an attempt to sign up: a name that is taken is signed
/// in to.
pub fn after_sign_up(status: u16) -> (r: SignUpNext)
    ensures
        r == if status == 200 {
            SignUpNext::Enrolled
        } else if status == 409 {
            SignUpNext::SignIn
        } else {
            SignUpNext::Failed
        },
{
    if status == 200 {
        SignUpNext::Enrolled
    } else if status == 409 {
        SignUpNext::SignIn
    } else {
        SignUpNext::Failed
    }
}

/// The devices of an account.
pub open spec fn leftovers_of(devices: Seq<RawIdentity>, account: Seq<char>) -> Seq<RawIdentity> {
    devices.filter(|d: RawIdentity| opt_text(d.user_id) == Some(account) && d.uuid is Some)
}

/// Lists the devices that an earlier run left behind for an account.
pub fn leftovers(devices: &Vec<RawIdentity>, account: &str) -> (r: Vec<String>)
    ensures
        r@.len() == leftovers_of(devices@, account@).len(),
        forall|i: int|
            0 <= i < r@.len() ==> Some((#[trigger] r@[i])@) == opt_text(
                leftovers_of(devices@, account@)[i].uuid,
            ),
{
    let ghost left = |d: RawIdentity| opt_text(d.user_id) == Some(account@) && d.uuid is Some;
    let mut out: Vec<String> = Vec::new();
    let mut i: usize = 0;
    proof {
        reveal(Seq::filter);
        assert(devices@.take(0) =~= Seq::<RawIdentity>::empty());
    }
    while i < devices.len()
        invariant
            i <= devices@.len(),
            left == (|d: RawIdentity| opt_text(d.user_id) == Some(account@) && d.uuid is Some),
            out@.len() == devices@.take(i as int).filter(left).len(),
            forall|k: int|
                0 <= k < out@.len() ==> Some((#[trigger] out@[k])@) == opt_text(
                    devices@.take(i as int).filter(left)[k].uuid,
                ),
        decreases devices@.len() - i,
    {
        proof {
            reveal(Seq::filter);
            assert(devices@.take(i + 1).drop_last() =~= devices@.take(i as int));
        }
        let d = &devices[i];
        if let Some(user_id) = &d.user_id {
            if crate::text::same_text(user_id.as_str(), account) {
                if let Some(uuid) = &d.uuid {
                    out.push(uuid.clone());
                }
            }
        }
        i += 1;
    }
    assert(devices@.take(i as int) =~= devices@);
    out
}

} // verus!
