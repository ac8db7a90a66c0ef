//! `POST /refresh`: a device rotates its token.

use vstd::prelude::*;
use vstd::utf8::{decode_utf8, valid_utf8};

use crate::chance::{drawn_uuid, fresh_uuid};
use crate::config::Config;
use crate::crypto::hash_token;
use crate::crypto::keys::{decrypt_with_shared_key, opened};
use crate::crypto::token_digest;
use crate::domain::identity::{Identity, IdentityCommand, IdentityKey, UpdateIdentity};
use crate::domain::user::{User, UserKey};
use crate::error::{refused, unauthorized, AppError, AppResult, Failure};
use crate::outside::{
    hex_bytes, hex_decode, is_hex, is_uuid_v4, opt_text, text_from_utf8,
};
use crate::routes::{agreed, device_key, device_shared_key, owner_proven, prove_owner, ClientIp};
use crate::text::secrets_differ;
use crate::time::Timestamp;

verus! {

#[derive(Debug)]
pub struct RefreshRequest {
    pub token: String,
    pub ehlo: String,
}

#[derive(Debug)]
pub struct RefreshResponse {
    pub token: String,
}

/// The first step: look the device up by its address.
#[derive(Debug)]
pub struct RefreshLookup {
    pub key: IdentityKey,
    pub request: RefreshRequest,
}

/// The second step: look the account of the device up.
#[derive(Debug)]
pub struct RefreshOwner {
    pub key: UserKey,
    pub device: String,
    pub ehlo: Vec<u8>,
}

/// The last step: store the digest of the new token, then hand the token out.
#[derive(Debug)]
pub struct RefreshUpdate {
    pub command: IdentityCommand,
    pub response: RefreshResponse,
}

/// The token and the secret that a request carries, both sealed for the server
/// by the device, or the first thing that is wrong with them.
pub open spec fn sealed_proof(
    device: Identity,
    token: Seq<char>,
    ehlo: Seq<char>,
    secret: Seq<u8>,
) -> Result<(Seq<char>, Seq<u8>), Failure> {
    match device_key(device, secret) {
        Err(e) => Err(e),
        Ok(key) => if !is_hex(token) {
            Err(Failure::Validation("invalid token hex"@))
        } else if !is_hex(ehlo) {
            Err(Failure::Validation("invalid ehlo hex"@))
        } else {
            match opened(hex_bytes(token), key) {
                Err(e) => Err(e),
                Ok(token_bytes) => match opened(hex_bytes(ehlo), key) {
                    Err(e) => Err(e),
                    Ok(ehlo_bytes) => if !valid_utf8(token_bytes) {
                        Err(Failure::Validation("token must be valid utf8"@))
                    } else {
                        Ok((decode_utf8(token_bytes), ehlo_bytes))
                    },
                },
            }
        },
    }
}

/// The account of a device that proves its token, with the secret sent along.
pub open spec fn refresh_claim(
    device: Option<Identity>,
    token: Seq<char>,
    ehlo: Seq<char>,
    secret: Seq<u8>,
) -> Result<(Seq<char>, Seq<u8>), Failure> {
    match device {
        None => Err(refused()),
        Some(identity) => match sealed_proof(identity, token, ehlo, secret) {
            Err(e) => Err(e),
            Ok((raw, proof_bytes)) => if opt_text(identity.device_token) != Some(
                token_digest(raw),
            ) {
                Err(refused())
            } else {
                match identity.user_id {
                    None => Err(refused()),
                    Some(user_id) => Ok((user_id@, proof_bytes)),
                }
            },
        },
    }
}

/// Starts a refresh.
pub fn refresh_handler(request: RefreshRequest, ip: &ClientIp) -> (r: RefreshLookup)
    ensures
        r.key matches IdentityKey::Ip(v) && v@ == ip.0@,
        r.request == request,
{
    RefreshLookup { key: Identity::find_by_ip(ip.0.as_str()), request }
}

impl RefreshLookup {
    /// Opens the request with the key of the device and checks the token.
    pub fn found(self, device: Option<Identity>, config: &Config) -> (r: AppResult<RefreshOwner>)
        ensures
            match r {
                Ok(step) => {
                    &&& device is Some
                    &&& step.device == device->0.uuid
                    &&& agreed(
                        device->0,
                        config.database_encrypt_secret@,
                        device_key(device->0, config.database_encrypt_secret@)->Ok_0,
                    )
                    &&& step.key matches UserKey::Uuid(id) && refresh_claim(
                        device,
                        self.request.token@,
                        self.request.ehlo@,
                        config.database_encrypt_secret@,
                    ) == Ok::<(Seq<char>, Seq<u8>), Failure>((id@, step.ehlo@))
                },
                Err(e) => refresh_claim(
                    device,
                    self.request.token@,
                    self.request.ehlo@,
                    config.database_encrypt_secret@,
                ) == Err::<(Seq<char>, Seq<u8>), Failure>(e@),
            },
    {
        let identity = match device {
            Some(identity) => identity,
            None => return Err(unauthorized()),
        };
        let key = match device_shared_key(&identity, config) {
            Ok(key) => key,
            Err(e) => return Err(e),
        };
        let token_sealed = match hex_decode(self.request.token.as_str()) {
            Some(bytes) => bytes,
            None => return Err(AppError::Validation("invalid token hex".to_string())),
        };
        let ehlo_sealed = match hex_decode(self.request.ehlo.as_str()) {
            Some(bytes) => bytes,
            None => return Err(AppError::Validation("invalid ehlo hex".to_string())),
        };
        let token_bytes = match decrypt_with_shared_key(token_sealed.as_slice(), &key) {
            Ok(bytes) => bytes,
            Err(e) => return Err(e),
        };
        let ehlo = match decrypt_with_shared_key(ehlo_sealed.as_slice(), &key) {
            Ok(bytes) => bytes,
            Err(e) => return Err(e),
        };
        let token = match text_from_utf8(token_bytes) {
            Some(token) => token,
            None => return Err(AppError::Validation("token must be valid utf8".to_string())),
        };
        let sent = hash_token(token.as_str());
        let stored = match &identity.device_token {
            Some(digest) => digest.clone(),
            None => {
                proof {
                    reveal_strlit("");
                }
                "".to_string()
            },
        };
        if secrets_differ(sent.as_str(), stored.as_str()) {
            return Err(unauthorized());
        }
        let user_id = match &identity.user_id {
            Some(user_id) => user_id.clone(),
            None => return Err(unauthorized()),
        };
        Ok(
            RefreshOwner {
                key: User::find_by_uuid(user_id.as_str()),
                device: identity.uuid,
                ehlo,
            },
        )
    }
}

/// Whether a step gives a device a new token: only the digest of the token is
/// stored, and nothing else about the device changes.
pub open spec fn rotates(step: RefreshUpdate, device: Seq<char>, token: Seq<char>) -> bool {
    &&& step.response.token@ == token
    &&& step.command matches IdentityCommand::Update { uuid, changes, updated_at: _ } && {
        &&& uuid@ == device
        &&& changes.user_id is None
        &&& changes.ip_address is None
        &&& opt_text(changes.device_token) == Some(token_digest(token))
        &&& changes.client_public_key is None
        &&& changes.extra is None
        &&& changes.is_confirmed is None
    }
}

/// Gives a device a given token, at a given moment.
pub fn rotate_token(device: &str, token: String, now: Timestamp) -> (r: RefreshUpdate)
    ensures
        rotates(r, device@, token@),
        r.command->updated_at == now,
{
    let changes = UpdateIdentity {
        user_id: None,
        ip_address: None,
        device_token: Some(hash_token(token.as_str())),
        client_public_key: None,
        extra: None,
        is_confirmed: None,
    };
    RefreshUpdate {
        command: Identity::update_at(device, changes, now),
        response: RefreshResponse { token },
    }
}

impl RefreshOwner {
    /// Checks the account and its secret, and gives the device a fresh token.
    pub fn found(self, owner: Option<User>, config: &Config) -> (r: AppResult<RefreshUpdate>)
        ensures
            match r {
                Ok(step) => {
                    &&& owner_proven(owner, self.ehlo@, config.database_encrypt_secret@) is Ok
                    &&& is_uuid_v4(step.response.token@) && drawn_uuid(step.response.token@)
                    &&& rotates(step, self.device@, step.response.token@)
                    &&& step.command->updated_at.given()
                },
                Err(e) => owner_proven(owner, self.ehlo@, config.database_encrypt_secret@)
                    == Err::<(), Failure>(e@),
            },
    {
        match prove_owner(&owner, self.ehlo.as_slice(), config) {
            Ok(_) => {},
            Err(e) => return Err(e),
        }
        Ok(rotate_token(self.device.as_str(), fresh_uuid(), Timestamp::now()))
    }
}

impl RefreshUpdate {
    /// Answers once the token is stored.
    pub fn updated(self) -> (r: RefreshResponse)
        ensures
            r == self.response,
    {
        self.response
    }
}

} // verus!
