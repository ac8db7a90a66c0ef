//! What each endpoint decides. An endpoint is a chain of steps: a step says
//! what it needs from the database, is handed the answer, and gives the next
//! step, the reply or an error.

pub mod admin;
pub mod greet;
pub mod group;
pub mod passwords;
pub mod refresh;
pub mod resign;
pub mod router;
pub mod signin;
pub mod verify;

use vstd::prelude::*;

use crate::config::Config;
use crate::crypto::encrypt::decrypt_db;
use crate::crypto::hash_token;
use crate::crypto::keys::{derive_shared_key, key_result, opened, shared_key};
use crate::crypto::token_digest;
use crate::domain::identity::{Identity, IdentityKey};
use crate::domain::user::{User, UserKey};
use crate::error::{refused, unauthorized, unit_result, AppError, AppResult, Failure};
use crate::net::{in_subnet, ipv4_value, parse_ipv4, subnet_holds, Peer};
use crate::outside::{
    ct_ne, hex_bytes, hex_decode, hex_encode, hex_text, is_hex, opt_text, public_key,
    x25519_value,
};
use crate::text::{parse_unsigned, parted, secrets_differ, split_once, unsigned_value};

verus! {

/// The source address of a request, as text.
#[derive(Debug)]
pub struct ClientIp(pub String);

/// The value of an optional borrowed text.
pub open spec fn opt_str(v: Option<&str>) -> Option<Seq<char>> {
    match v {
        Some(s) => Some(s@),
        None => None,
    }
}

// ---------------------------------------------------------------------------
// Administrators
// ---------------------------------------------------------------------------

/// Whether the key of a request is the secret of the server in hexadecimal.
pub open spec fn admin_key_checked(key: Option<Seq<char>>, secret: Seq<u8>) -> Result<
    (),
    Failure,
> {
    if key == Some(hex_text(secret)) {
        Ok(())
    } else {
        Err(refused())
    }
}

/// Checks the `admin-key` header of a request.
pub fn check_admin_key(key: Option<&str>, config: &Config) -> (r: AppResult<()>)
    ensures
        unit_result(r) == admin_key_checked(opt_str(key), config.software_secret@),
{
    let key = match key {
        Some(key) => key,
        None => return Err(unauthorized()),
    };
    let expected = hex_encode(&config.software_secret);
    if secrets_differ(key, expected.as_str()) {
        return Err(unauthorized());
    }
    Ok(())
}

/// The subnet that a setting describes: a base address and the length of its
/// prefix, which is thirty-two where none is given.
pub open spec fn subnet_of(cidr: Seq<char>) -> Result<(u32, nat), Failure> {
    let (base, prefix) = match parted(cidr, '/') {
        Some(parts) => parts,
        None => (cidr, "32"@),
    };
    match ipv4_value(base) {
        None => Err(Failure::Internal("invalid ADMIN_ALLOWED_SUBNET"@)),
        Some(address) => match unsigned_value(prefix, 255) {
            None => Err(Failure::Internal("invalid ADMIN_ALLOWED_SUBNET prefix"@)),
            Some(length) => if length > 32 {
                Err(Failure::Internal("ADMIN_ALLOWED_SUBNET prefix must be 0-32"@))
            } else {
                Ok((address, length))
            },
        },
    }
}

/// Whether a peer may use the admin endpoints: an IPv4 address of the subnet.
pub open spec fn admin_ip_checked(peer: Peer, cidr: Seq<char>) -> Result<(), Failure> {
    match subnet_of(cidr) {
        Err(e) => Err(e),
        Ok((base, prefix)) => match peer {
            Peer::V6 => Err(refused()),
            Peer::V4(address) => if in_subnet(address, base, prefix) {
                Ok(())
            } else {
                Err(refused())
            },
        },
    }
}

/// Checks the address of a peer against the subnet of the administrators.
pub fn check_admin_ip(peer: Peer, config: &Config) -> (r: AppResult<()>)
    ensures
        unit_result(r) == admin_ip_checked(peer, config.admin_allowed_subnet@),
{
    let cidr = config.admin_allowed_subnet.as_str();
    let (base_text, prefix_text) = match split_once(cidr, '/') {
        Some(parts) => parts,
        None => (cidr.to_string(), "32".to_string()),
    };
    let base: u32 = match parse_ipv4(base_text.as_str()) {
        Some(address) => address,
        None => return Err(AppError::Internal("invalid ADMIN_ALLOWED_SUBNET".to_string())),
    };
    let prefix: u32 = match parse_unsigned(prefix_text.as_str(), 255) {
        Some(length) => length,
        None => return Err(
            AppError::Internal("invalid ADMIN_ALLOWED_SUBNET prefix".to_string()),
        ),
    };
    if prefix > 32 {
        return Err(AppError::Internal("ADMIN_ALLOWED_SUBNET prefix must be 0-32".to_string()));
    }
    let address: u32 = match peer {
        Peer::V4(address) => address,
        Peer::V6 => return Err(unauthorized()),
    };
    if subnet_holds(address, base, prefix) {
        Ok(())
    } else {
        Err(unauthorized())
    }
}

/// Proof that a request came from an administrator.
pub struct AdminPass {
    granted: (),
}

/// Whether a request comes from an administrator: the key first, then the
/// address.
pub open spec fn admin_checked(key: Option<Seq<char>>, peer: Peer, config: Config) -> Result<
    (),
    Failure,
> {
    match admin_key_checked(key, config.software_secret@) {
        Err(e) => Err(e),
        Ok(_) => admin_ip_checked(peer, config.admin_allowed_subnet@),
    }
}

/// Checks both gates of the admin endpoints.
pub fn check_admin(key: Option<&str>, peer: Peer, config: &Config) -> (r: AppResult<AdminPass>)
    ensures
        match r {
            Ok(_) => admin_checked(opt_str(key), peer, *config) is Ok,
            Err(e) => admin_checked(opt_str(key), peer, *config) == Err::<(), Failure>(e@),
        },
{
    match check_admin_key(key, config) {
        Ok(_) => {},
        Err(e) => return Err(e),
    }
    match check_admin_ip(peer, config) {
        Ok(_) => Ok(AdminPass { granted: () }),
        Err(e) => Err(e),
    }
}

// ---------------------------------------------------------------------------
// Devices
// ---------------------------------------------------------------------------

/// The key that the server shares with a device.
pub open spec fn device_key(device: Identity, secret: Seq<u8>) -> Result<Seq<u8>, Failure> {
    match opened(device.server_private_key@, secret) {
        Err(e) => Err(e),
        Ok(private) => shared_key(private, device.client_public_key@),
    }
}

/// Whether the stored public key of a device is that of the stored private key.
pub open spec fn paired(device: Identity, secret: Seq<u8>) -> bool {
    match opened(device.server_private_key@, secret) {
        Ok(private) => device.server_public_key@ == public_key(private),
        Err(_) => false,
    }
}

/// Whether a key is the one that the holder of a device's private key derives
/// from the public key that the server gave out.
pub open spec fn agreed(device: Identity, secret: Seq<u8>, key: Seq<u8>) -> bool {
    forall|client_private: Seq<u8>|
        client_private.len() == 32 && device.client_public_key@ == #[trigger] public_key(
            client_private,
        ) && paired(device, secret) ==> key == x25519_value(
            client_private,
            device.server_public_key@,
        )
}

/// Recovers the key that the server shares with a device.
pub fn device_shared_key(device: &Identity, config: &Config) -> (r: AppResult<[u8; 32]>)
    ensures
        key_result(r) == device_key(*device, config.database_encrypt_secret@),
        r matches Ok(key) ==> agreed(*device, config.database_encrypt_secret@, key@),
{
    let private = match decrypt_db(
        device.server_private_key.as_slice(),
        &config.database_encrypt_secret,
    ) {
        Ok(private) => private,
        Err(e) => return Err(e),
    };
    derive_shared_key(private.as_slice(), device.client_public_key.as_slice())
}

/// Whether an account exists, is not deleted and is proven by its secret.
pub open spec fn owner_proven(owner: Option<User>, ehlo: Seq<u8>, secret: Seq<u8>) -> Result<
    (),
    Failure,
> {
    match owner {
        None => Err(refused()),
        Some(user) => if user.is_deleted {
            Err(refused())
        } else if !is_hex(user.ehlo_secret@) {
            Err(Failure::Crypto("invalid ehlo storage format"@))
        } else {
            match opened(hex_bytes(user.ehlo_secret@), secret) {
                Err(e) => Err(e),
                Ok(stored) => if stored != ehlo {
                    Err(refused())
                } else {
                    Ok(())
                },
            }
        },
    }
}

/// Checks an account and the secret that should prove it.
pub fn prove_owner(owner: &Option<User>, ehlo: &[u8], config: &Config) -> (r: AppResult<()>)
    ensures
        unit_result(r) == owner_proven(*owner, ehlo@, config.database_encrypt_secret@),
{
    let user = match owner {
        Some(user) => user,
        None => return Err(unauthorized()),
    };
    if user.is_deleted {
        return Err(unauthorized());
    }
    let sealed = match hex_decode(user.ehlo_secret.as_str()) {
        Some(sealed) => sealed,
        None => return Err(AppError::Crypto("invalid ehlo storage format".to_string())),
    };
    let stored = match decrypt_db(sealed.as_slice(), &config.database_encrypt_secret) {
        Ok(stored) => stored,
        Err(e) => return Err(e),
    };
    if ct_ne(ehlo, stored.as_slice()) {
        return Err(unauthorized());
    }
    Ok(())
}

// ---------------------------------------------------------------------------
// Sessions
// ---------------------------------------------------------------------------

/// A confirmed device that acts for an account which is not deleted. Only the
/// session check makes one.
pub struct Session {
    identity: Identity,
    user_id: String,
}

impl Session {
    #[verifier::type_invariant]
    spec fn linked(self) -> bool {
        self.identity.user_id == Some(self.user_id)
    }

    /// The device.
    pub closed spec fn identity(&self) -> Identity {
        self.identity
    }

    /// The identifier of the account.
    pub closed spec fn owner(&self) -> Seq<char> {
        self.user_id@
    }

    /// Borrows the device.
    pub fn device(&self) -> (r: &Identity)
        ensures
            *r == self.identity(),
    {
        &self.identity
    }

    /// Borrows the identifier of the account.
    pub fn user_id(&self) -> (r: &String)
        ensures
            r@ == self.owner(),
            self.identity().user_id == Some(*r),
    {
        proof {
            use_type_invariant(self);
        }
        &self.user_id
    }
}

/// The first step of the session check: look the device up by its token.
#[derive(Debug)]
pub struct AuthLookup {
    pub key: IdentityKey,
}

/// The second step of the session check: look the account up.
#[derive(Debug)]
pub struct AuthOwner {
    key: UserKey,
    identity: Identity,
    user_id: String,
}

/// Whether a device may act: it calls from its own address, is confirmed and
/// belongs to an account.
pub open spec fn device_admitted(found: Option<Identity>, ip: Seq<char>) -> bool {
    match found {
        None => false,
        Some(device) => device.ip_address@ == ip && device.is_confirmed && device.user_id is Some,
    }
}

/// Whether an account may be acted for.
pub open spec fn owner_admitted(owner: Option<User>) -> bool {
    match owner {
        None => false,
        Some(user) => !user.is_deleted,
    }
}

/// Starts the session check from the `device-token` header.
pub fn validate_auth(device_token: Option<&str>) -> (r: AppResult<AuthLookup>)
    ensures
        match r {
            Ok(step) => {
                &&& device_token is Some
                &&& step.key matches IdentityKey::DeviceToken(digest) && digest@ == token_digest(
                    device_token->0@,
                )
            },
            Err(e) => device_token is None && e@ == refused(),
        },
{
    match device_token {
        Some(token) => {
            let digest = hash_token(token);
            Ok(AuthLookup { key: Identity::find_by_device_token(digest.as_str()) })
        },
        None => Err(unauthorized()),
    }
}

impl AuthLookup {
    /// Checks the device that holds the token.
    pub fn found(self, device: Option<Identity>, ip: &ClientIp) -> (r: AppResult<AuthOwner>)
        ensures
            match r {
                Ok(step) => {
                    &&& device_admitted(device, ip.0@)
                    &&& Some(step.identity()) == device
                    &&& step.lookup() matches UserKey::Uuid(id) && Some(id@) == opt_text(
                        device->0.user_id,
                    )
                },
                Err(e) => !device_admitted(device, ip.0@) && e@ == refused(),
            },
    {
        let identity = match device {
            Some(identity) => identity,
            None => return Err(unauthorized()),
        };
        if identity.ip_address != ip.0 {
            return Err(unauthorized());
        }
        if !identity.is_confirmed {
            return Err(unauthorized());
        }
        let user_id = match &identity.user_id {
            Some(user_id) => user_id.clone(),
            None => return Err(unauthorized()),
        };
        Ok(AuthOwner { key: User::find_by_uuid(user_id.as_str()), identity, user_id })
    }
}

impl AuthOwner {
    #[verifier::type_invariant]
    spec fn linked(self) -> bool {
        self.identity.user_id == Some(self.user_id)
    }

    /// The device that was found.
    pub closed spec fn identity(&self) -> Identity {
        self.identity
    }

    /// How the account is looked up.
    pub closed spec fn lookup(&self) -> UserKey {
        self.key
    }

    /// Borrows how the account is looked up.
    pub fn key(&self) -> (r: &UserKey)
        ensures
            *r == self.lookup(),
    {
        &self.key
    }

    /// Checks the account that the device belongs to.
    pub fn found(self, owner: Option<User>) -> (r: AppResult<Session>)
        ensures
            match r {
                Ok(session) => {
                    &&& owner_admitted(owner)
                    &&& session.identity() == self.identity()
                    &&& self.identity().user_id is Some
                    &&& session.owner() == self.identity().user_id->0@
                },
                Err(e) => !owner_admitted(owner) && e@ == refused(),
            },
    {
        proof {
            use_type_invariant(&self);
        }
        let user = match owner {
            Some(user) => user,
            None => return Err(unauthorized()),
        };
        if user.is_deleted {
            return Err(unauthorized());
        }
        Ok(Session { identity: self.identity, user_id: self.user_id })
    }
}

} // verus!
