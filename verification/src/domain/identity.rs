//! Devices.

use vstd::prelude::*;

use crate::outside::opt_text;
use crate::time::Timestamp;

verus! {

/// One device: its key pair with the server, its token, its source address and
/// the user it is linked to.
#[derive(Clone, Debug)]
pub struct Identity {
    pub uuid: String,
    pub user_id: Option<String>,
    pub ip_address: String,
    pub device_token: Option<String>,
    pub server_private_key: Vec<u8>,
    pub server_public_key: Vec<u8>,
    pub client_public_key: Vec<u8>,
    pub extra: String,
    pub is_confirmed: bool,
    pub created_at: Timestamp,
    pub updated_at: Timestamp,
}

/// A device to be stored.
#[derive(Debug)]
pub struct NewIdentity {
    pub uuid: String,
    pub user_id: Option<String>,
    pub ip_address: String,
    pub device_token: Option<String>,
    pub server_private_key: Vec<u8>,
    pub server_public_key: Vec<u8>,
    pub client_public_key: Vec<u8>,
    pub extra: String,
    pub is_confirmed: bool,
}

/// Changes to a device. A field that is absent stays as it is.
#[derive(Debug)]
pub struct UpdateIdentity {
    pub user_id: Option<String>,
    pub ip_address: Option<String>,
    pub device_token: Option<String>,
    pub client_public_key: Option<Vec<u8>>,
    pub extra: Option<String>,
    pub is_confirmed: Option<bool>,
}

/// How one device is looked up.
#[derive(Debug)]
pub enum IdentityKey {
    Ip(String),
    DeviceToken(String),
    Uuid(String),
}

/// Which devices are listed.
#[derive(Debug)]
pub enum IdentityList {
    All,
    Pending,
}

/// A change to the table of devices.
#[derive(Debug)]
pub enum IdentityCommand {
    Insert(NewIdentity),
    Update { uuid: String, changes: UpdateIdentity, updated_at: Timestamp },
    Delete(String),
}

impl IdentityKey {
    /// Whether a row is one that the key looks for.
    pub open spec fn finds(self, row: Identity) -> bool {
        match self {
            IdentityKey::Ip(ip) => row.ip_address@ == ip@,
            IdentityKey::DeviceToken(token) => opt_text(row.device_token) == Some(token@),
            IdentityKey::Uuid(uuid) => row.uuid@ == uuid@,
        }
    }
}

impl IdentityList {
    /// Whether a row belongs to the list.
    pub open spec fn lists(self, row: Identity) -> bool {
        match self {
            IdentityList::All => true,
            IdentityList::Pending => !row.is_confirmed,
        }
    }
}

/// The row that changes leave behind.
pub open spec fn identity_patched(
    row: Identity,
    changes: UpdateIdentity,
    updated_at: Timestamp,
) -> Identity {
    Identity {
        user_id: match changes.user_id {
            Some(v) => Some(v),
            None => row.user_id,
        },
        ip_address: match changes.ip_address {
            Some(v) => v,
            None => row.ip_address,
        },
        device_token: match changes.device_token {
            Some(v) => Some(v),
            None => row.device_token,
        },
        client_public_key: match changes.client_public_key {
            Some(v) => v,
            None => row.client_public_key,
        },
        extra: match changes.extra {
            Some(v) => v,
            None => row.extra,
        },
        is_confirmed: match changes.is_confirmed {
            Some(v) => v,
            None => row.is_confirmed,
        },
        updated_at,
        ..row
    }
}

/// Whether a stored row holds what was to be stored.
pub open spec fn identity_stored(new: NewIdentity, row: Identity) -> bool {
    &&& row.uuid == new.uuid
    &&& row.user_id == new.user_id
    &&& row.ip_address == new.ip_address
    &&& row.device_token == new.device_token
    &&& row.server_private_key == new.server_private_key
    &&& row.server_public_key == new.server_public_key
    &&& row.client_public_key == new.client_public_key
    &&& row.extra == new.extra
    &&& row.is_confirmed == new.is_confirmed
}

impl IdentityCommand {
    /// What the command does to the table of devices.
    pub open spec fn effect(self, before: Seq<Identity>, after: Seq<Identity>) -> bool {
        match self {
            IdentityCommand::Insert(new) => exists|row: Identity|
                #[trigger] identity_stored(new, row) && after == before.push(row),
            IdentityCommand::Update { uuid, changes, updated_at } => after == before.map_values(
                |row: Identity|
                    if row.uuid@ == uuid@ {
                        identity_patched(row, changes, updated_at)
                    } else {
                        row
                    },
            ),
            IdentityCommand::Delete(uuid) => after == before.filter(
                |row: Identity| row.uuid@ != uuid@,
            ),
        }
    }
}

impl Identity {
    /// Looks a device up by its source address.
    pub fn find_by_ip(ip: &str) -> (key: IdentityKey)
        ensures
            key matches IdentityKey::Ip(v) && v@ == ip@,
    {
        IdentityKey::Ip(ip.to_string())
    }

    /// Looks a device up by the stored form of its token.
    pub fn find_by_device_token(token: &str) -> (key: IdentityKey)
        ensures
            key matches IdentityKey::DeviceToken(v) && v@ == token@,
    {
        IdentityKey::DeviceToken(token.to_string())
    }

    /// Looks a device up by its identifier.
    pub fn find_by_uuid(uuid: &str) -> (key: IdentityKey)
        ensures
            key matches IdentityKey::Uuid(v) && v@ == uuid@,
    {
        IdentityKey::Uuid(uuid.to_string())
    }

    /// Lists every device.
    pub fn find_all() -> (list: IdentityList)
        ensures
            list is All,
    {
        IdentityList::All
    }

    /// Lists the devices that wait for approval.
    pub fn find_pending() -> (list: IdentityList)
        ensures
            list is Pending,
    {
        IdentityList::Pending
    }

    /// Stores a device.
    pub fn create(new: NewIdentity) -> (command: IdentityCommand)
        ensures
            command == IdentityCommand::Insert(new),
    {
        IdentityCommand::Insert(new)
    }

    /// Changes a device at a given moment, which becomes its time of change.
    pub fn update_at(uuid: &str, changes: UpdateIdentity, now: Timestamp) -> (command:
        IdentityCommand)
        ensures
            command matches IdentityCommand::Update { uuid: u, changes: c, updated_at: t } && u@
                == uuid@ && c == changes && t == now,
    {
        IdentityCommand::Update { uuid: uuid.to_string(), changes, updated_at: now }
    }

    /// Changes a device now.
    pub fn update(uuid: &str, changes: UpdateIdentity) -> (command: IdentityCommand)
        ensures
            command matches IdentityCommand::Update { uuid: u, changes: c, updated_at: t } && u@
                == uuid@ && c == changes && t.given(),
    {
        Identity::update_at(uuid, changes, Timestamp::now())
    }

    /// Removes a device.
    pub fn delete(uuid: &str) -> (command: IdentityCommand)
        ensures
            command matches IdentityCommand::Delete(u) && u@ == uuid@,
    {
        IdentityCommand::Delete(uuid.to_string())
    }
}

} // verus!
