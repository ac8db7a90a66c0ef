//! `POST /greet`: a new device exchanges public keys with the server.

use vstd::prelude::*;

use crate::chance::{drawn_bytes, drawn_nonce, drawn_uuid, fresh_uuid};
use crate::config::Config;
use crate::crypto::encrypt::encrypt_db;
use crate::crypto::keys::{
    clamped, generate_identity_keys, is_clamped, is_sealed, opened, IdentityKeys,
};
use crate::domain::identity::{Identity, IdentityCommand, IdentityKey, NewIdentity};
use crate::error::{AppError, AppResult, Failure};
use crate::outside::{
    hex_bytes, hex_decode, hex_encode, hex_text, is_hex, is_uuid_v4, public_key,
    MAX_MESSAGE_LEN,
};
use crate::routes::ClientIp;

verus! {

#[derive(Debug)]
pub struct GreetRequest {
    pub pub_key: String,
}

#[derive(Debug)]
pub struct GreetResponse {
    pub server_public_key: String,
}

/// The first step: look for a device at the same address.
#[derive(Debug)]
pub struct GreetLookup {
    pub key: IdentityKey,
    pub ip: String,
    pub client_public_key: Vec<u8>,
}

/// The second step: store the device.
#[derive(Debug)]
pub struct GreetInsert {
    pub command: IdentityCommand,
    pub response: GreetResponse,
}

/// How the database took a new row.
#[derive(Debug)]
pub enum Insertion {
    Stored,
    UniqueViolation,
    Failed(String),
}

/// The public key that a request carries, or what is wrong with it.
pub open spec fn client_key(pub_key: Seq<char>) -> Result<Seq<u8>, Failure> {
    if !is_hex(pub_key) {
        Err(Failure::Validation("invalid pub_key hex encoding"@))
    } else if hex_bytes(pub_key).len() != 32 {
        Err(Failure::Validation("pub_key must be exactly 32 bytes (64 hex chars)"@))
    } else {
        Ok(hex_bytes(pub_key))
    }
}

/// The answer to an address that has a device already.
pub open spec fn already_greeted() -> Failure {
    Failure::PreconditionFailed("precondition failed"@)
}

/// Whether a device to be stored is fresh: bound to the address and the key of
/// the request, unconfirmed, with no account and no token, and with a key pair
/// of its own whose private half is sealed under the secret of the database.
pub open spec fn fresh_device(
    new: NewIdentity,
    ip: Seq<char>,
    client_public_key: Seq<u8>,
    secret: Seq<u8>,
) -> bool {
    &&& is_uuid_v4(new.uuid@) && drawn_uuid(new.uuid@)
    &&& new.user_id is None
    &&& new.ip_address@ == ip
    &&& new.device_token is None
    &&& new.client_public_key@ == client_public_key
    &&& new.extra@ == "{}"@
    &&& !new.is_confirmed
    &&& opened(new.server_private_key@, secret) is Ok
    &&& is_clamped(opened(new.server_private_key@, secret)->Ok_0)
    &&& drawn_nonce(new.server_private_key@.take(12))
    &&& exists|raw: Seq<u8>| #[trigger]
        drawn_bytes(raw) && raw.len() == 32 && opened(new.server_private_key@, secret)->Ok_0
            == clamped(raw)
    &&& is_sealed(
        new.server_private_key@,
        secret,
        opened(new.server_private_key@, secret)->Ok_0,
    )
    &&& new.server_public_key@ == public_key(opened(new.server_private_key@, secret)->Ok_0)
    &&& new.server_public_key@.len() == 32
}

/// Checks a request to greet.
pub fn greet_handler(req: &GreetRequest, ip: ClientIp) -> (r: AppResult<GreetLookup>)
    ensures
        match r {
            Ok(step) => {
                &&& client_key(req.pub_key@) == Ok::<Seq<u8>, Failure>(step.client_public_key@)
                &&& step.key matches IdentityKey::Ip(v) && v@ == ip.0@
                &&& step.ip == ip.0
            },
            Err(e) => client_key(req.pub_key@) == Err::<Seq<u8>, Failure>(e@),
        },
{
    let client_public_key = match hex_decode(req.pub_key.as_str()) {
        Some(bytes) => bytes,
        None => return Err(AppError::Validation("invalid pub_key hex encoding".to_string())),
    };
    if client_public_key.len() != 32 {
        return Err(
            AppError::Validation("pub_key must be exactly 32 bytes (64 hex chars)".to_string()),
        );
    }
    Ok(GreetLookup { key: Identity::find_by_ip(ip.0.as_str()), ip: ip.0, client_public_key })
}

impl GreetLookup {
    /// Makes the device with a given identifier and key pair.
    pub fn enrol(self, uuid: String, keys: IdentityKeys, config: &Config) -> (r: AppResult<
        GreetInsert,
    >)
        requires
            keys.server_private_key@.len() <= MAX_MESSAGE_LEN,
        ensures
            r matches Ok(step) && step.command matches IdentityCommand::Insert(new) && {
                &&& new.uuid == uuid
                &&& new.user_id is None
                &&& new.ip_address == self.ip
                &&& new.device_token is None
                &&& is_sealed(
                    new.server_private_key@,
                    config.database_encrypt_secret@,
                    keys.server_private_key@,
                )
                &&& drawn_nonce(new.server_private_key@.take(12))
                &&& new.server_public_key@ == keys.server_public_key@
                &&& new.client_public_key == self.client_public_key
                &&& new.extra@ == "{}"@
                &&& !new.is_confirmed
                &&& step.response.server_public_key@ == hex_text(keys.server_public_key@)
            },
    {
        let server_private_key = match encrypt_db(
            keys.server_private_key.as_slice(),
            &config.database_encrypt_secret,
        ) {
            Ok(sealed) => sealed,
            Err(e) => return Err(e),
        };
        let response = GreetResponse {
            server_public_key: hex_encode(keys.server_public_key.as_slice()),
        };
        let new = NewIdentity {
            uuid,
            user_id: None,
            ip_address: self.ip,
            device_token: None,
            server_private_key,
            server_public_key: keys.server_public_key,
            client_public_key: self.client_public_key,
            extra: "{}".to_string(),
            is_confirmed: false,
        };
        Ok(GreetInsert { command: Identity::create(new), response })
    }

    /// Makes the device, unless the address has one already.
    pub fn found(self, existing: Option<Identity>, config: &Config) -> (r: AppResult<GreetInsert>)
        ensures
            match r {
                Ok(step) => {
                    &&& existing is None
                    &&& step.command matches IdentityCommand::Insert(new) && fresh_device(
                        new,
                        self.ip@,
                        self.client_public_key@,
                        config.database_encrypt_secret@,
                    ) && step.response.server_public_key@ == hex_text(new.server_public_key@)
                },
                Err(e) => existing is Some && e@ == already_greeted(),
            },
    {
        if existing.is_some() {
            return Err(AppError::PreconditionFailed("precondition failed".to_string()));
        }
        let keys = generate_identity_keys();
        self.enrol(fresh_uuid(), keys, config)
    }
}

/// What comes of storing the device.
pub open spec fn insertion_failure(outcome: Insertion) -> Option<Failure> {
    match outcome {
        Insertion::Stored => None,
        Insertion::UniqueViolation => Some(already_greeted()),
        Insertion::Failed(m) => Some(Failure::Database(m@)),
    }
}

impl GreetInsert {
    /// Answers once the database has taken the device, or has refused it
    /// because another one took the address first.
    pub fn stored(self, outcome: Insertion) -> (r: AppResult<GreetResponse>)
        ensures
            match r {
                Ok(response) => insertion_failure(outcome) is None && response == self.response,
                Err(e) => insertion_failure(outcome) == Some(e@),
            },
    {
        match outcome {
            Insertion::Stored => Ok(self.response),
            Insertion::UniqueViolation => Err(
                AppError::PreconditionFailed("precondition failed".to_string()),
            ),
            Insertion::Failed(m) => Err(AppError::Database(m)),
        }
    }
}

} // verus!
