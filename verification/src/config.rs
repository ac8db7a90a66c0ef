//! What the server is started with.

use vstd::prelude::*;

use crate::crypto::keys::key_array;
use crate::outside::{hex_bytes, hex_decode, is_hex, opt_text};
use crate::text::{parse_unsigned, unsigned_value};

verus! {

/// The settings of the server.
#[derive(Clone, Debug)]
pub struct Config {
    pub database_encrypt_secret: [u8; 32],
    pub software_secret: [u8; 32],
    pub database_url: String,
    pub bind_addr: String,
    pub db_pool_size: u32,
    pub cors_origin: Option<String>,
    pub admin_allowed_subnet: String,
}

/// The environment variables that the settings come from, each absent where it
/// is not set.
#[derive(Debug)]
pub struct Environment {
    pub database_encrypt_secret: Option<String>,
    pub software_secret: Option<String>,
    pub database_url: Option<String>,
    pub bind_addr: Option<String>,
    pub db_pool_size: Option<String>,
    pub cors_origin: Option<String>,
    pub admin_allowed_subnet: Option<String>,
}

/// What is wrong with an environment variable, which is named.
#[derive(Debug)]
pub enum ConfigError {
    Unset(String),
    NotHex(String),
    WrongLength(String),
    NotInteger(String),
}

/// The value of a [`ConfigError`].
pub enum Fault {
    Unset(Seq<char>),
    NotHex(Seq<char>),
    WrongLength(Seq<char>),
    NotInteger(Seq<char>),
}

impl View for ConfigError {
    type V = Fault;

    open spec fn view(&self) -> Fault {
        match self {
            ConfigError::Unset(name) => Fault::Unset(name@),
            ConfigError::NotHex(name) => Fault::NotHex(name@),
            ConfigError::WrongLength(name) => Fault::WrongLength(name@),
            ConfigError::NotInteger(name) => Fault::NotInteger(name@),
        }
    }
}

/// The text of a fault.
pub open spec fn fault_text(f: Fault) -> Seq<char> {
    match f {
        Fault::Unset(name) => name + " must be set"@,
        Fault::NotHex(name) => name + " must be valid hex"@,
        Fault::WrongLength(name) => name + " must be exactly 32 bytes (64 hex chars)"@,
        Fault::NotInteger(name) => name + " must be a valid integer"@,
    }
}

impl ConfigError {
    /// The text of the error.
    pub fn text(&self) -> (r: String)
        ensures
            r@ == fault_text(self@),
    {
        match self {
            ConfigError::Unset(name) => complaint(name, " must be set"),
            ConfigError::NotHex(name) => complaint(name, " must be valid hex"),
            ConfigError::WrongLength(name) => complaint(
                name,
                " must be exactly 32 bytes (64 hex chars)",
            ),
            ConfigError::NotInteger(name) => complaint(name, " must be a valid integer"),
        }
    }
}

fn complaint(name: &String, wrong: &str) -> (r: String)
    ensures
        r@ == name@ + wrong@,
{
    let mut s = name.clone();
    s.push_str(wrong);
    s
}

/// The secret that a variable holds: sixty-four hexadecimal digits.
pub open spec fn secret_value(name: Seq<char>, value: Option<Seq<char>>) -> Result<
    Seq<u8>,
    Fault,
> {
    match value {
        None => Err(Fault::Unset(name)),
        Some(text) => if !is_hex(text) {
            Err(Fault::NotHex(name))
        } else if text.len() != 64 {
            Err(Fault::WrongLength(name))
        } else {
            Ok(hex_bytes(text))
        },
    }
}

/// Reads the secret that a variable holds.
pub fn decode_hex_env(key: &str, value: &Option<String>) -> (r: Result<[u8; 32], ConfigError>)
    ensures
        match r {
            Ok(secret) => secret_value(key@, opt_text(*value)) == Ok::<Seq<u8>, Fault>(secret@),
            Err(e) => secret_value(key@, opt_text(*value)) == Err::<Seq<u8>, Fault>(e@),
        },
{
    let text = match value {
        Some(text) => text,
        None => return Err(ConfigError::Unset(key.to_string())),
    };
    let bytes = match hex_decode(text.as_str()) {
        Some(bytes) => bytes,
        None => return Err(ConfigError::NotHex(key.to_string())),
    };
    match key_array(bytes.as_slice()) {
        Some(secret) => Ok(secret),
        None => Err(ConfigError::WrongLength(key.to_string())),
    }
}

/// What is wrong with a variable that must be set.
pub open spec fn unset_fault(name: Seq<char>, value: Option<String>) -> Option<Fault> {
    match value {
        None => Some(Fault::Unset(name)),
        Some(_) => None,
    }
}

/// What is wrong with the size of the connection pool.
pub open spec fn pool_size_fault(value: Option<String>) -> Option<Fault> {
    match value {
        None => Some(Fault::Unset("DB_POOL_SIZE"@)),
        Some(text) => if unsigned_value(text@, u32::MAX as nat) is None {
            Some(Fault::NotInteger("DB_POOL_SIZE"@))
        } else {
            None
        },
    }
}

/// The first thing that is wrong with an environment.
pub open spec fn environment_fault(env: Environment) -> Option<Fault> {
    let encrypt_secret = secret_value(
        "DATABASEENCRYPTSECRET"@,
        opt_text(env.database_encrypt_secret),
    );
    let software_secret = secret_value("SOFTWARESECRET"@, opt_text(env.software_secret));
    let url = unset_fault("DATABASE_URL"@, env.database_url);
    let addr = unset_fault("BIND_ADDR"@, env.bind_addr);
    let pool_size = pool_size_fault(env.db_pool_size);
    if encrypt_secret is Err {
        Some(encrypt_secret->Err_0)
    } else if software_secret is Err {
        Some(software_secret->Err_0)
    } else if url is Some {
        url
    } else if addr is Some {
        addr
    } else if pool_size is Some {
        pool_size
    } else {
        unset_fault("ADMIN_ALLOWED_SUBNET"@, env.admin_allowed_subnet)
    }
}

/// Whether settings are those of an environment.
pub open spec fn settings_of(env: Environment, config: Config) -> bool {
    &&& env.database_encrypt_secret is Some
    &&& config.database_encrypt_secret@ == hex_bytes(env.database_encrypt_secret->0@)
    &&& env.software_secret is Some
    &&& config.software_secret@ == hex_bytes(env.software_secret->0@)
    &&& env.database_url == Some(config.database_url)
    &&& env.bind_addr == Some(config.bind_addr)
    &&& env.db_pool_size is Some
    &&& unsigned_value(env.db_pool_size->0@, u32::MAX as nat) == Some(config.db_pool_size as nat)
    &&& env.cors_origin == config.cors_origin
    &&& env.admin_allowed_subnet == Some(config.admin_allowed_subnet)
}

fn required(key: &str, value: Option<String>) -> (r: Result<String, ConfigError>)
    ensures
        match r {
            Ok(text) => value == Some(text),
            Err(e) => value is None && e@ == Fault::Unset(key@),
        },
{
    match value {
        Some(text) => Ok(text),
        None => Err(ConfigError::Unset(key.to_string())),
    }
}

impl Config {
    /// Reads the settings. There are no defaults: every variable must be set
    /// but the one for the browser origin.
    pub fn from_env(env: Environment) -> (r: Result<Config, ConfigError>)
        ensures
            match r {
                Ok(config) => environment_fault(env) is None && settings_of(env, config),
                Err(e) => environment_fault(env) == Some(e@),
            },
    {
        let database_encrypt_secret = match decode_hex_env(
            "DATABASEENCRYPTSECRET",
            &env.database_encrypt_secret,
        ) {
            Ok(secret) => secret,
            Err(e) => return Err(e),
        };
        let software_secret = match decode_hex_env("SOFTWARESECRET", &env.software_secret) {
            Ok(secret) => secret,
            Err(e) => return Err(e),
        };
        let database_url = match required("DATABASE_URL", env.database_url) {
            Ok(text) => text,
            Err(e) => return Err(e),
        };
        let bind_addr = match required("BIND_ADDR", env.bind_addr) {
            Ok(text) => text,
            Err(e) => return Err(e),
        };
        let pool_size = match required("DB_POOL_SIZE", env.db_pool_size) {
            Ok(text) => text,
            Err(e) => return Err(e),
        };
        let db_pool_size: u32 = match parse_unsigned(pool_size.as_str(), u32::MAX) {
            Some(n) => n,
            None => return Err(ConfigError::NotInteger("DB_POOL_SIZE".to_string())),
        };
        let admin_allowed_subnet = match required(
            "ADMIN_ALLOWED_SUBNET",
            env.admin_allowed_subnet,
        ) {
            Ok(text) => text,
            Err(e) => return Err(e),
        };
        Ok(
            Config {
                database_encrypt_secret,
                software_secret,
                database_url,
                bind_addr,
                db_pool_size,
                cors_origin: env.cors_origin,
                admin_allowed_subnet,
            },
        )
    }
}

} // verus!
