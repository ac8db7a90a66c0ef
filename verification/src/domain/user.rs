//! Accounts.

use vstd::prelude::*;

use crate::time::Timestamp;

verus! {

/// One account: a unique name and the secret that proves it, sealed.
#[derive(Clone, Debug)]
pub struct User {
    pub uuid: String,
    pub name: String,
    pub ehlo_secret: String,
    pub is_deleted: bool,
    pub extra: String,
    pub created_at: Timestamp,
    pub updated_at: Timestamp,
}

/// An account to be stored.
#[derive(Debug)]
pub struct NewUser {
    pub uuid: String,
    pub name: String,
    pub ehlo_secret: String,
    pub is_deleted: bool,
    pub extra: String,
}

/// Changes to an account. A field that is absent stays as it is.
#[derive(Debug)]
pub struct UpdateUser {
    pub is_deleted: Option<bool>,
    pub extra: Option<String>,
}

/// How one account is looked up.
#[derive(Debug)]
pub enum UserKey {
    Uuid(String),
    Name(String),
}

/// Which accounts are listed.
#[derive(Debug)]
pub enum UserList {
    All,
}

/// A change to the table of accounts. There is none that removes an account.
#[derive(Debug)]
pub enum UserCommand {
    Insert(NewUser),
    Update { uuid: String, changes: UpdateUser, updated_at: Timestamp },
}

impl UserKey {
    /// Whether a row is one that the key looks for.
    pub open spec fn finds(self, row: User) -> bool {
        match self {
            UserKey::Uuid(uuid) => row.uuid@ == uuid@,
            UserKey::Name(name) => row.name@ == name@,
        }
    }
}

/// The row that changes leave behind.
pub open spec fn user_patched(row: User, changes: UpdateUser, updated_at: Timestamp) -> User {
    User {
        is_deleted: match changes.is_deleted {
            Some(v) => v,
            None => row.is_deleted,
        },
        extra: match changes.extra {
            Some(v) => v,
            None => row.extra,
        },
        updated_at,
        ..row
    }
}

/// Whether a stored row holds what was to be stored.
pub open spec fn user_stored(new: NewUser, row: User) -> bool {
    &&& row.uuid == new.uuid
    &&& row.name == new.name
    &&& row.ehlo_secret == new.ehlo_secret
    &&& row.is_deleted == new.is_deleted
    &&& row.extra == new.extra
}

impl UserCommand {
    /// What the command does to the table of accounts.
    pub open spec fn effect(self, before: Seq<User>, after: Seq<User>) -> bool {
        match self {
            UserCommand::Insert(new) => exists|row: User|
                #[trigger] user_stored(new, row) && after == before.push(row),
            UserCommand::Update { uuid, changes, updated_at } => after == before.map_values(
                |row: User|
                    if row.uuid@ == uuid@ {
                        user_patched(row, changes, updated_at)
                    } else {
                        row
                    },
            ),
        }
    }
}

impl User {
    /// Looks an account up by its identifier.
    pub fn find_by_uuid(uuid: &str) -> (key: UserKey)
        ensures
            key matches UserKey::Uuid(v) && v@ == uuid@,
    {
        UserKey::Uuid(uuid.to_string())
    }

    /// Looks an account up by its name.
    pub fn find_by_name(name: &str) -> (key: UserKey)
        ensures
            key matches UserKey::Name(v) && v@ == name@,
    {
        UserKey::Name(name.to_string())
    }

    /// Lists every account.
    pub fn find_all() -> (list: UserList)
        ensures
            list is All,
    {
        UserList::All
    }

    /// Stores an account.
    pub fn create(new: NewUser) -> (command: UserCommand)
        ensures
            command == UserCommand::Insert(new),
    {
        UserCommand::Insert(new)
    }

    /// Changes an account at a given moment, which becomes its time of change.
    pub fn update_at(uuid: &str, changes: UpdateUser, now: Timestamp) -> (command: UserCommand)
        ensures
            command matches UserCommand::Update { uuid: u, changes: c, updated_at: t } && u@
                == uuid@ && c == changes && t == now,
    {
        UserCommand::Update { uuid: uuid.to_string(), changes, updated_at: now }
    }

    /// Changes an account now.
    pub fn update(uuid: &str, changes: UpdateUser) -> (command: UserCommand)
        ensures
            command matches UserCommand::Update { uuid: u, changes: c, updated_at: t } && u@
                == uuid@ && c == changes && t.given(),
    {
        User::update_at(uuid, changes, Timestamp::now())
    }
}

} // verus!
