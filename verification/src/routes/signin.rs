//! `POST /sign-up` and `POST /sign-in`: a device claims an account.

use vstd::prelude::*;
use vstd::utf8::{decode_utf8, valid_utf8};

use crate::chance::{drawn_nonce, drawn_uuid, fresh_uuid};
use crate::config::Config;
use crate::crypto::encrypt::encrypt_db;
use crate::crypto::hash_token;
use crate::crypto::keys::{decrypt_with_shared_key, is_sealed, opened, seal_failure};
use crate::crypto::token_digest;
use crate::domain::identity::{Identity, IdentityCommand, IdentityKey, UpdateIdentity};
use crate::domain::user::{NewUser, User, UserCommand, UserKey};
use crate::error::{
    length_checked, refused, unauthorized, unit_result, validate_length, AppError, AppResult,
    Failure,
};
use crate::outside::{
    hex_bytes, hex_decode, hex_encode, hex_text, is_hex, is_uuid_v4, opt_text,
    text_from_utf8, MAX_MESSAGE_LEN,
};
use crate::routes::{agreed, device_key, device_shared_key, owner_proven, prove_owner, ClientIp};
use crate::text::law_hex_round_trip;
use crate::time::Timestamp;

verus! {

/// The longest name of an account, in characters.
pub const MAX_NAME_LEN: usize = 64;

#[derive(Debug)]
pub struct SignRequest {
    pub name: String,
    pub ehlo: String,
}

#[derive(Debug)]
pub struct SignResponse {
    pub token: String,
}

/// The name and the secret that a request carries, sealed for the server by the
/// device at its address, or the first thing that is wrong with them.
pub open spec fn credentials(
    device: Option<Identity>,
    name: Seq<char>,
    ehlo: Seq<char>,
    secret: Seq<u8>,
) -> Result<(Seq<char>, Seq<u8>), Failure> {
    match device {
        None => Err(refused()),
        Some(identity) => match device_key(identity, secret) {
            Err(e) => Err(e),
            Ok(key) => if !is_hex(name) {
                Err(Failure::Validation("invalid name hex"@))
            } else if !is_hex(ehlo) {
                Err(Failure::Validation("invalid ehlo hex"@))
            } else {
                match opened(hex_bytes(name), key) {
                    Err(e) => Err(e),
                    Ok(name_bytes) => match opened(hex_bytes(ehlo), key) {
                        Err(e) => Err(e),
                        Ok(ehlo_bytes) => if !valid_utf8(name_bytes) {
                            Err(Failure::Validation("name must be valid utf8"@))
                        } else {
                            Ok((decode_utf8(name_bytes), ehlo_bytes))
                        },
                    },
                }
            },
        },
    }
}

/// A device with the name and the secret that it sent.
#[derive(Debug)]
pub struct Credentials {
    pub identity: Identity,
    pub name: String,
    pub ehlo: Vec<u8>,
}

/// Opens what a device sent.
pub fn decode_request(device: Option<Identity>, req: &SignRequest, config: &Config) -> (r:
    AppResult<Credentials>)
    ensures
        match r {
            Ok(c) => {
                &&& credentials(device, req.name@, req.ehlo@, config.database_encrypt_secret@)
                    == Ok::<(Seq<char>, Seq<u8>), Failure>((c.name@, c.ehlo@))
                &&& device == Some(c.identity)
                &&& agreed(
                    c.identity,
                    config.database_encrypt_secret@,
                    device_key(c.identity, config.database_encrypt_secret@)->Ok_0,
                )
            },
            Err(e) => credentials(device, req.name@, req.ehlo@, config.database_encrypt_secret@)
                == Err::<(Seq<char>, Seq<u8>), Failure>(e@),
        },
{
    let identity = match device {
        Some(identity) => identity,
        None => return Err(unauthorized()),
    };
    let key = match device_shared_key(&identity, config) {
        Ok(key) => key,
        Err(e) => return Err(e),
    };
    let name_sealed = match hex_decode(req.name.as_str()) {
        Some(bytes) => bytes,
        None => return Err(AppError::Validation("invalid name hex".to_string())),
    };
    let ehlo_sealed = match hex_decode(req.ehlo.as_str()) {
        Some(bytes) => bytes,
        None => return Err(AppError::Validation("invalid ehlo hex".to_string())),
    };
    let name_bytes = match decrypt_with_shared_key(name_sealed.as_slice(), &key) {
        Ok(bytes) => bytes,
        Err(e) => return Err(e),
    };
    let ehlo = match decrypt_with_shared_key(ehlo_sealed.as_slice(), &key) {
        Ok(bytes) => bytes,
        Err(e) => return Err(e),
    };
    let name = match text_from_utf8(name_bytes) {
        Some(name) => name,
        None => return Err(AppError::Validation("name must be valid utf8".to_string())),
    };
    Ok(Credentials { identity, name, ehlo })
}

// ---------------------------------------------------------------------------
// Linking a device to an account
// ---------------------------------------------------------------------------

/// The last step: link the device to the account, then hand out its token.
#[derive(Debug)]
pub struct LinkDevice {
    pub command: IdentityCommand,
    pub response: SignResponse,
}

/// Whether a step links a device to an account under a token: the token is
/// stored as its digest only, and the device waits for approval.
pub open spec fn links(
    step: LinkDevice,
    device: Seq<char>,
    account: Seq<char>,
    token: Seq<char>,
) -> bool {
    &&& step.response.token@ == token
    &&& step.command matches IdentityCommand::Update { uuid, changes, updated_at: _ } && {
        &&& uuid@ == device
        &&& opt_text(changes.user_id) == Some(account)
        &&& changes.ip_address is None
        &&& opt_text(changes.device_token) == Some(token_digest(token))
        &&& changes.client_public_key is None
        &&& changes.extra is None
        &&& changes.is_confirmed == Some(false)
    }
}

/// Links a device to an account under a given token, at a given moment.
pub fn link_device_with(identity_uuid: &str, user_id: &str, token: String, now: Timestamp) -> (r:
    LinkDevice)
    ensures
        links(r, identity_uuid@, user_id@, token@),
        r.command->updated_at == now,
{
    let changes = UpdateIdentity {
        user_id: Some(user_id.to_string()),
        ip_address: None,
        device_token: Some(hash_token(token.as_str())),
        client_public_key: None,
        extra: None,
        is_confirmed: Some(false),
    };
    LinkDevice {
        command: Identity::update_at(identity_uuid, changes, now),
        response: SignResponse { token },
    }
}

/// Links a device to an account under a fresh token.
pub fn link_device(identity_uuid: &str, user_id: &str) -> (r: LinkDevice)
    ensures
        is_uuid_v4(r.response.token@) && drawn_uuid(r.response.token@),
        links(r, identity_uuid@, user_id@, r.response.token@),
        r.command->updated_at.given(),
{
    link_device_with(identity_uuid, user_id, fresh_uuid(), Timestamp::now())
}

impl LinkDevice {
    /// Answers once the device is linked.
    pub fn linked(self) -> (r: SignResponse)
        ensures
            r == self.response,
    {
        self.response
    }
}

// ---------------------------------------------------------------------------
// Sign-up
// ---------------------------------------------------------------------------

/// What is wrong with the name of a new account, if anything is.
pub open spec fn name_checked(name: Seq<char>) -> Result<(), Failure> {
    if name.len() == 0 {
        Err(Failure::Validation("name must not be empty"@))
    } else {
        length_checked("name"@, name, MAX_NAME_LEN as nat)
    }
}

/// Checks the name of a new account.
pub fn validate_name(name: &str) -> (r: AppResult<()>)
    ensures
        unit_result(r) == name_checked(name@),
{
    if name.unicode_len() == 0 {
        return Err(AppError::Validation("name must not be empty".to_string()));
    }
    validate_length("name", name, MAX_NAME_LEN)
}

/// The first step of a sign-up: look the device up by its address.
#[derive(Debug)]
pub struct SignUpLookup {
    pub key: IdentityKey,
    pub request: SignRequest,
}

/// The second step of a sign-up: look for an account of the same name.
#[derive(Debug)]
pub struct SignUpName {
    pub key: UserKey,
    pub device: String,
    pub name: String,
    pub ehlo_secret: String,
}

/// The third step of a sign-up: store the account.
#[derive(Debug)]
pub struct SignUpCreate {
    pub command: UserCommand,
    pub device: String,
}

/// The account that a sign-up asks for, or what is wrong with it.
pub open spec fn sign_up_account(
    device: Option<Identity>,
    req: SignRequest,
    secret: Seq<u8>,
) -> Result<(Seq<char>, Seq<u8>), Failure> {
    match credentials(device, req.name@, req.ehlo@, secret) {
        Err(e) => Err(e),
        Ok((name, ehlo)) => match name_checked(name) {
            Err(e) => Err(e),
            Ok(_) => if ehlo.len() > MAX_MESSAGE_LEN {
                Err(seal_failure())
            } else {
                Ok((name, ehlo))
            },
        },
    }
}

/// Whether a stored text is some bytes, sealed under a key and written in
/// hexadecimal.
pub open spec fn sealed_text(text: Seq<char>, key: Seq<u8>, plaintext: Seq<u8>) -> bool {
    &&& text == hex_text(hex_bytes(text))
    &&& is_hex(text)
    &&& is_sealed(hex_bytes(text), key, plaintext)
}

/// Starts a sign-up.
pub fn sign_up_handler(request: SignRequest, ip: &ClientIp) -> (r: SignUpLookup)
    ensures
        r.key matches IdentityKey::Ip(v) && v@ == ip.0@,
        r.request == request,
{
    SignUpLookup { key: Identity::find_by_ip(ip.0.as_str()), request }
}

impl SignUpLookup {
    /// Opens the request with the key of the device, and seals the secret of
    /// the account for the database.
    pub fn found(self, device: Option<Identity>, config: &Config) -> (r: AppResult<SignUpName>)
        ensures
            match r {
                Ok(step) => {
                    &&& sign_up_account(device, self.request, config.database_encrypt_secret@) is Ok
                    &&& step.name@ == sign_up_account(
                        device,
                        self.request,
                        config.database_encrypt_secret@,
                    )->Ok_0.0
                    &&& sealed_text(
                        step.ehlo_secret@,
                        config.database_encrypt_secret@,
                        sign_up_account(
                            device,
                            self.request,
                            config.database_encrypt_secret@,
                        )->Ok_0.1,
                    )
                    &&& drawn_nonce(hex_bytes(step.ehlo_secret@).take(12))
                    &&& step.key matches UserKey::Name(v) && v@ == step.name@
                    &&& device is Some
                    &&& step.device == device->0.uuid
                    &&& agreed(
                        device->0,
                        config.database_encrypt_secret@,
                        device_key(device->0, config.database_encrypt_secret@)->Ok_0,
                    )
                },
                Err(e) => sign_up_account(device, self.request, config.database_encrypt_secret@)
                    == Err::<(Seq<char>, Seq<u8>), Failure>(e@),
            },
    {
        let c = match decode_request(device, &self.request, config) {
            Ok(c) => c,
            Err(e) => return Err(e),
        };
        match validate_name(c.name.as_str()) {
            Ok(_) => {},
            Err(e) => return Err(e),
        }
        let sealed = match encrypt_db(c.ehlo.as_slice(), &config.database_encrypt_secret) {
            Ok(sealed) => sealed,
            Err(e) => return Err(e),
        };
        proof {
            law_hex_round_trip(sealed@);
        }
        Ok(
            SignUpName {
                key: User::find_by_name(c.name.as_str()),
                device: c.identity.uuid,
                name: c.name,
                ehlo_secret: hex_encode(sealed.as_slice()),
            },
        )
    }
}

impl SignUpName {
    /// Makes the account, unless its name is taken.
    pub fn found(self, existing: Option<User>) -> (r: AppResult<SignUpCreate>)
        ensures
            match r {
                Ok(step) => {
                    &&& existing is None
                    &&& step.command matches UserCommand::Insert(new) && {
                        &&& is_uuid_v4(new.uuid@) && drawn_uuid(new.uuid@)
                        &&& new.name == self.name
                        &&& new.ehlo_secret == self.ehlo_secret
                        &&& !new.is_deleted
                        &&& new.extra@ == "{}"@
                    }
                    &&& step.device == self.device
                },
                Err(e) => existing is Some && e@ == Failure::Conflict("name already taken"@),
            },
    {
        if existing.is_some() {
            return Err(AppError::Conflict("name already taken".to_string()));
        }
        let new = NewUser {
            uuid: fresh_uuid(),
            name: self.name,
            ehlo_secret: self.ehlo_secret,
            is_deleted: false,
            extra: "{}".to_string(),
        };
        Ok(SignUpCreate { command: User::create(new), device: self.device })
    }
}

impl SignUpCreate {
    /// Links the device to the account that was stored.
    pub fn created(self, user: &User) -> (r: LinkDevice)
        ensures
            is_uuid_v4(r.response.token@) && drawn_uuid(r.response.token@),
            links(r, self.device@, user.uuid@, r.response.token@),
            r.command->updated_at.given(),
    {
        link_device(self.device.as_str(), user.uuid.as_str())
    }
}

// ---------------------------------------------------------------------------
// Sign-in
// ---------------------------------------------------------------------------

/// The first step of a sign-in: look the device up by its address.
#[derive(Debug)]
pub struct SignInLookup {
    pub key: IdentityKey,
    pub request: SignRequest,
}

/// The second step of a sign-in: look the account up by its name.
#[derive(Debug)]
pub struct SignInName {
    pub key: UserKey,
    pub device: String,
    pub ehlo: Vec<u8>,
}

/// Starts a sign-in.
pub fn sign_in_handler(request: SignRequest, ip: &ClientIp) -> (r: SignInLookup)
    ensures
        r.key matches IdentityKey::Ip(v) && v@ == ip.0@,
        r.request == request,
{
    SignInLookup { key: Identity::find_by_ip(ip.0.as_str()), request }
}

impl SignInLookup {
    /// Opens the request with the key of the device.
    pub fn found(self, device: Option<Identity>, config: &Config) -> (r: AppResult<SignInName>)
        ensures
            match r {
                Ok(step) => {
                    &&& device is Some
                    &&& step.device == device->0.uuid
                    &&& agreed(
                        device->0,
                        config.database_encrypt_secret@,
                        device_key(device->0, config.database_encrypt_secret@)->Ok_0,
                    )
                    &&& step.key matches UserKey::Name(name) && credentials(
                        device,
                        self.request.name@,
                        self.request.ehlo@,
                        config.database_encrypt_secret@,
                    ) == Ok::<(Seq<char>, Seq<u8>), Failure>((name@, step.ehlo@))
                },
                Err(e) => credentials(
                    device,
                    self.request.name@,
                    self.request.ehlo@,
                    config.database_encrypt_secret@,
                ) == Err::<(Seq<char>, Seq<u8>), Failure>(e@),
            },
    {
        let c = match decode_request(device, &self.request, config) {
            Ok(c) => c,
            Err(e) => return Err(e),
        };
        Ok(
            SignInName {
                key: User::find_by_name(c.name.as_str()),
                device: c.identity.uuid,
                ehlo: c.ehlo,
            },
        )
    }
}

impl SignInName {
    /// Checks the account and its secret, and links the device to it.
    pub fn found(self, account: Option<User>, config: &Config) -> (r: AppResult<LinkDevice>)
        ensures
            match r {
                Ok(step) => {
                    &&& owner_proven(account, self.ehlo@, config.database_encrypt_secret@) is Ok
                    &&& is_uuid_v4(step.response.token@) && drawn_uuid(step.response.token@)
                    &&& links(step, self.device@, account->0.uuid@, step.response.token@)
                    &&& step.command->updated_at.given()
                },
                Err(e) => owner_proven(account, self.ehlo@, config.database_encrypt_secret@)
                    == Err::<(), Failure>(e@),
            },
    {
        match prove_owner(&account, self.ehlo.as_slice(), config) {
            Ok(_) => {},
            Err(e) => return Err(e),
        }
        match account {
            Some(user) => Ok(link_device(self.device.as_str(), user.uuid.as_str())),
            None => Err(unauthorized()),
        }
    }
}

} // verus!
