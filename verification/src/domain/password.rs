//! Stored passwords.

use vstd::prelude::*;

use crate::time::Timestamp;

verus! {

/// One stored password, sealed, with the window in which it is valid.
#[derive(Clone, Debug)]
pub struct Password {
    pub uuid: String,
    pub group_id: String,
    pub pwd: String,
    pub name: String,
    pub extra: String,
    pub valid_since_days: i32,
    pub created_at: Timestamp,
    pub updated_at: Timestamp,
    pub valid_since: Timestamp,
}

/// A password to be stored.
#[derive(Debug)]
pub struct NewPassword {
    pub uuid: String,
    pub group_id: String,
    pub pwd: String,
    pub name: String,
    pub extra: String,
    pub valid_since_days: i32,
    pub valid_since: Timestamp,
}

/// Changes to a password. A field that is absent stays as it is.
#[derive(Debug)]
pub struct UpdatePassword {
    pub pwd: Option<String>,
    pub group_id: Option<String>,
    pub name: Option<String>,
    pub extra: Option<String>,
    pub valid_since_days: Option<i32>,
}

/// How one password is looked up.
#[derive(Debug)]
pub enum PasswordKey {
    Uuid(String),
}

/// Which passwords are listed.
#[derive(Debug)]
pub enum PasswordList {
    Groups(Vec<String>),
}

/// A change to the table of passwords. There is none that removes a password.
#[derive(Debug)]
pub enum PasswordCommand {
    Insert(NewPassword),
    Update {
        uuid: String,
        changes: UpdatePassword,
        updated_at: Timestamp,
        valid_since: Timestamp,
    },
}

impl PasswordKey {
    /// Whether a row is one that the key looks for.
    pub open spec fn finds(self, row: Password) -> bool {
        match self {
            PasswordKey::Uuid(uuid) => row.uuid@ == uuid@,
        }
    }
}

/// Whether an identifier is among those given.
pub open spec fn among(ids: Seq<String>, id: Seq<char>) -> bool {
    exists|i: int| 0 <= i < ids.len() && (#[trigger] ids[i])@ == id
}

impl PasswordList {
    /// Whether a row belongs to the list.
    pub open spec fn lists(self, row: Password) -> bool {
        match self {
            PasswordList::Groups(ids) => among(ids@, row.group_id@),
        }
    }
}

/// The row that changes leave behind. The window of validity starts anew.
pub open spec fn password_patched(
    row: Password,
    changes: UpdatePassword,
    updated_at: Timestamp,
    valid_since: Timestamp,
) -> Password {
    Password {
        pwd: match changes.pwd {
            Some(v) => v,
            None => row.pwd,
        },
        group_id: match changes.group_id {
            Some(v) => v,
            None => row.group_id,
        },
        name: match changes.name {
            Some(v) => v,
            None => row.name,
        },
        extra: match changes.extra {
            Some(v) => v,
            None => row.extra,
        },
        valid_since_days: match changes.valid_since_days {
            Some(v) => v,
            None => row.valid_since_days,
        },
        updated_at,
        valid_since,
        ..row
    }
}

/// Whether a stored row holds what was to be stored.
pub open spec fn password_stored(new: NewPassword, row: Password) -> bool {
    &&& row.uuid == new.uuid
    &&& row.group_id == new.group_id
    &&& row.pwd == new.pwd
    &&& row.name == new.name
    &&& row.extra == new.extra
    &&& row.valid_since_days == new.valid_since_days
    &&& row.valid_since == new.valid_since
}

impl PasswordCommand {
    /// What the command does to the table of passwords.
    pub open spec fn effect(self, before: Seq<Password>, after: Seq<Password>) -> bool {
        match self {
            PasswordCommand::Insert(new) => exists|row: Password|
                #[trigger] password_stored(new, row) && after == before.push(row),
            PasswordCommand::Update { uuid, changes, updated_at, valid_since } => after
                == before.map_values(
                |row: Password|
                    if row.uuid@ == uuid@ {
                        password_patched(row, changes, updated_at, valid_since)
                    } else {
                        row
                    },
            ),
        }
    }
}

impl Password {
    /// Looks a password up by its identifier.
    pub fn find_by_uuid(uuid: &str) -> (key: PasswordKey)
        ensures
            key matches PasswordKey::Uuid(v) && v@ == uuid@,
    {
        PasswordKey::Uuid(uuid.to_string())
    }

    /// Lists the passwords of some groups.
    pub fn find_by_groups(group_ids: Vec<String>) -> (list: PasswordList)
        ensures
            list == PasswordList::Groups(group_ids),
    {
        PasswordList::Groups(group_ids)
    }

    /// Stores a password.
    pub fn create(new: NewPassword) -> (command: PasswordCommand)
        ensures
            command == PasswordCommand::Insert(new),
    {
        PasswordCommand::Insert(new)
    }

    /// Changes a password at a given moment, which becomes its time of change
    /// and the start of its window of validity.
    pub fn update_at(uuid: &str, changes: UpdatePassword, now: Timestamp) -> (command:
        PasswordCommand)
        ensures
            command matches PasswordCommand::Update {
                uuid: u,
                changes: c,
                updated_at: t,
                valid_since: v,
            } && u@ == uuid@ && c == changes && t == now && v == now,
    {
        PasswordCommand::Update {
            uuid: uuid.to_string(),
            changes,
            updated_at: now,
            valid_since: now,
        }
    }

    /// Changes a password now.
    pub fn update(uuid: &str, changes: UpdatePassword) -> (command: PasswordCommand)
        ensures
            command matches PasswordCommand::Update {
                uuid: u,
                changes: c,
                updated_at: t,
                valid_since: v,
            } && u@ == uuid@ && c == changes && t == v && t.given(),
    {
        Password::update_at(uuid, changes, Timestamp::now())
    }
}

} // verus!
