//! Groups of passwords.

use vstd::prelude::*;

use crate::time::Timestamp;

verus! {

/// One group of passwords, which belongs to an account.
#[derive(Clone, Debug)]
pub struct Group {
    pub uuid: String,
    pub user_id: String,
    pub name: String,
    pub extra: String,
    pub created_at: Timestamp,
    pub updated_at: Timestamp,
}

/// A group to be stored.
#[derive(Debug)]
pub struct NewGroup {
    pub uuid: String,
    pub user_id: String,
    pub name: String,
    pub extra: String,
}

/// How one group is looked up.
#[derive(Debug)]
pub enum GroupKey {
    Uuid(String),
}

/// Which groups are listed.
#[derive(Debug)]
pub enum GroupList {
    User(String),
}

/// A change to the table of groups. There is none that removes a group.
#[derive(Debug)]
pub enum GroupCommand {
    Insert(NewGroup),
}

impl GroupKey {
    /// Whether a row is one that the key looks for.
    pub open spec fn finds(self, row: Group) -> bool {
        match self {
            GroupKey::Uuid(uuid) => row.uuid@ == uuid@,
        }
    }
}

impl GroupList {
    /// Whether a row belongs to the list.
    pub open spec fn lists(self, row: Group) -> bool {
        match self {
            GroupList::User(user_id) => row.user_id@ == user_id@,
        }
    }
}

/// Whether a stored row holds what was to be stored.
pub open spec fn group_stored(new: NewGroup, row: Group) -> bool {
    &&& row.uuid == new.uuid
    &&& row.user_id == new.user_id
    &&& row.name == new.name
    &&& row.extra == new.extra
}

impl GroupCommand {
    /// What the command does to the table of groups.
    pub open spec fn effect(self, before: Seq<Group>, after: Seq<Group>) -> bool {
        match self {
            GroupCommand::Insert(new) => exists|row: Group|
                #[trigger] group_stored(new, row) && after == before.push(row),
        }
    }
}

impl Group {
    /// Looks a group up by its identifier.
    pub fn find_by_uuid(uuid: &str) -> (key: GroupKey)
        ensures
            key matches GroupKey::Uuid(v) && v@ == uuid@,
    {
        GroupKey::Uuid(uuid.to_string())
    }

    /// Lists the groups of an account.
    pub fn find_by_user(user_id: &str) -> (list: GroupList)
        ensures
            list matches GroupList::User(v) && v@ == user_id@,
    {
        GroupList::User(user_id.to_string())
    }

    /// Stores a group.
    pub fn create(new: NewGroup) -> (command: GroupCommand)
        ensures
            command == GroupCommand::Insert(new),
    {
        GroupCommand::Insert(new)
    }
}

} // verus!
