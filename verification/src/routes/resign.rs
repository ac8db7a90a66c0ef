//! `POST /re-sign`: a device whose address changed binds itself to the new one.

use vstd::prelude::*;
use vstd::utf8::{decode_utf8, valid_utf8};

use crate::config::Config;
use crate::crypto::hash_token;
use crate::crypto::keys::{decrypt_with_shared_key, opened};
use crate::crypto::token_digest;
use crate::domain::identity::{Identity, IdentityCommand, IdentityKey, UpdateIdentity};
use crate::domain::user::{User, UserKey};
use crate::error::{refused, unauthorized, AppError, AppResult, Failure};
use crate::outside::{hex_bytes, hex_decode, is_hex, opt_text, text_from_utf8};
use crate::routes::{agreed, device_key, device_shared_key, owner_proven, prove_owner, ClientIp};
use crate::time::Timestamp;

verus! {

/// The token in hexadecimal, and the secret of the account sealed by the
/// device.
#[derive(Debug)]
pub struct ResignRequest {
    pub token: String,
    pub ehlo: String,
}

/// The first step: look the device up by its token.
#[derive(Debug)]
pub struct ResignLookup {
    pub key: IdentityKey,
    pub ehlo_sealed: Vec<u8>,
}

/// The second step: look the account of the device up.
#[derive(Debug)]
pub struct ResignOwner {
    pub key: UserKey,
    pub device: String,
    pub ehlo: Vec<u8>,
}

/// The last step: bind the device to its new address.
#[derive(Debug)]
pub struct ResignUpdate {
    pub command: IdentityCommand,
}

/// The token that a request names, or what is wrong with the request.
pub open spec fn resign_token(token: Seq<char>, ehlo: Seq<char>) -> Result<Seq<char>, Failure> {
    if !is_hex(token) {
        Err(Failure::Validation("invalid token hex"@))
    } else if !is_hex(ehlo) {
        Err(Failure::Validation("invalid ehlo hex"@))
    } else if !valid_utf8(hex_bytes(token)) {
        Err(Failure::Validation("token must be valid utf8"@))
    } else {
        Ok(decode_utf8(hex_bytes(token)))
    }
}

/// The account of a device, with the secret that the device sealed.
pub open spec fn resign_claim(
    device: Option<Identity>,
    ehlo_sealed: Seq<u8>,
    secret: Seq<u8>,
) -> Result<(Seq<char>, Seq<u8>), Failure> {
    match device {
        None => Err(refused()),
        Some(identity) => match device_key(identity, secret) {
            Err(e) => Err(e),
            Ok(key) => match opened(ehlo_sealed, key) {
                Err(e) => Err(e),
                Ok(ehlo) => match identity.user_id {
                    None => Err(refused()),
                    Some(user_id) => Ok((user_id@, ehlo)),
                },
            },
        },
    }
}

/// Checks a request to re-sign.
pub fn resign_handler(request: &ResignRequest) -> (r: AppResult<ResignLookup>)
    ensures
        match r {
            Ok(step) => {
                &&& resign_token(request.token@, request.ehlo@) is Ok
                &&& step.key matches IdentityKey::DeviceToken(digest) && digest@ == token_digest(
                    resign_token(request.token@, request.ehlo@)->Ok_0,
                )
                &&& step.ehlo_sealed@ == hex_bytes(request.ehlo@)
            },
            Err(e) => resign_token(request.token@, request.ehlo@) == Err::<Seq<char>, Failure>(
                e@,
            ),
        },
{
    let token_bytes = match hex_decode(request.token.as_str()) {
        Some(bytes) => bytes,
        None => return Err(AppError::Validation("invalid token hex".to_string())),
    };
    let ehlo_sealed = match hex_decode(request.ehlo.as_str()) {
        Some(bytes) => bytes,
        None => return Err(AppError::Validation("invalid ehlo hex".to_string())),
    };
    let token = match text_from_utf8(token_bytes) {
        Some(token) => token,
        None => return Err(AppError::Validation("token must be valid utf8".to_string())),
    };
    let digest = hash_token(token.as_str());
    Ok(ResignLookup { key: Identity::find_by_device_token(digest.as_str()), ehlo_sealed })
}

impl ResignLookup {
    /// Opens the secret with the key of the device that holds the token.
    pub fn found(self, device: Option<Identity>, config: &Config) -> (r: AppResult<ResignOwner>)
        ensures
            match r {
                Ok(step) => {
                    &&& device is Some
                    &&& step.device == device->0.uuid
                    &&& agreed(
                        device->0,
                        config.database_encrypt_secret@,
                        device_key(device->0, config.database_encrypt_secret@)->Ok_0,
                    )
                    &&& step.key matches UserKey::Uuid(id) && resign_claim(
                        device,
                        self.ehlo_sealed@,
                        config.database_encrypt_secret@,
                    ) == Ok::<(Seq<char>, Seq<u8>), Failure>((id@, step.ehlo@))
                },
                Err(e) => resign_claim(device, self.ehlo_sealed@, config.database_encrypt_secret@)
                    == Err::<(Seq<char>, Seq<u8>), Failure>(e@),
            },
    {
        let identity = match device {
            Some(identity) => identity,
            None => return Err(unauthorized()),
        };
        let key = match device_shared_key(&identity, config) {
            Ok(key) => key,
            Err(e) => return Err(e),
        };
        let ehlo = match decrypt_with_shared_key(self.ehlo_sealed.as_slice(), &key) {
            Ok(bytes) => bytes,
            Err(e) => return Err(e),
        };
        let user_id = match &identity.user_id {
            Some(user_id) => user_id.clone(),
            None => return Err(unauthorized()),
        };
        Ok(
            ResignOwner {
                key: User::find_by_uuid(user_id.as_str()),
                device: identity.uuid,
                ehlo,
            },
        )
    }
}

/// Whether a step binds a device to an address, where it waits for approval
/// again. Its keys, its token and its account stay.
pub open spec fn rebinds(step: ResignUpdate, device: Seq<char>, ip: Seq<char>) -> bool {
    step.command matches IdentityCommand::Update { uuid, changes, updated_at: _ } && {
        &&& uuid@ == device
        &&& changes.user_id is None
        &&& opt_text(changes.ip_address) == Some(ip)
        &&& changes.device_token is None
        &&& changes.client_public_key is None
        &&& changes.extra is None
        &&& changes.is_confirmed == Some(false)
    }
}

/// Binds a device to an address, at a given moment.
pub fn rebind_device(device: &str, ip: &ClientIp, now: Timestamp) -> (r: ResignUpdate)
    ensures
        rebinds(r, device@, ip.0@),
        r.command->updated_at == now,
{
    let changes = UpdateIdentity {
        user_id: None,
        ip_address: Some(ip.0.clone()),
        device_token: None,
        client_public_key: None,
        extra: None,
        is_confirmed: Some(false),
    };
    ResignUpdate { command: Identity::update_at(device, changes, now) }
}

impl ResignOwner {
    /// Checks the account and its secret, and binds the device to the address
    /// that the request came from.
    pub fn found(self, owner: Option<User>, ip: &ClientIp, config: &Config) -> (r: AppResult<
        ResignUpdate,
    >)
        ensures
            match r {
                Ok(step) => {
                    &&& owner_proven(owner, self.ehlo@, config.database_encrypt_secret@) is Ok
                    &&& rebinds(step, self.device@, ip.0@)
                    &&& step.command->updated_at.given()
                },
                Err(e) => owner_proven(owner, self.ehlo@, config.database_encrypt_secret@)
                    == Err::<(), Failure>(e@),
            },
    {
        match prove_owner(&owner, self.ehlo.as_slice(), config) {
            Ok(_) => {},
            Err(e) => return Err(e),
        }
        Ok(rebind_device(self.device.as_str(), ip, Timestamp::now()))
    }
}

} // verus!
