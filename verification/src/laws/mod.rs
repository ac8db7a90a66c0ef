//! What holds of the server as a whole. Each law speaks of the tables of the
//! database, of answers that the database may give, and of the steps that the
//! endpoints take on them.

pub mod accounts;
pub mod administration;
pub mod answers;
pub mod archives;
pub mod clients;
pub mod commands;
pub mod devices;
pub mod dialogue;
pub mod enrolment;
pub mod gates;
pub mod keyboard;
pub mod listing;
pub mod lists;
pub mod notation;
pub mod passwords;
pub mod plain;
pub mod reading;
pub mod refusals;
pub mod screen;
pub mod sealing;
pub mod sessions;
pub mod tables;
pub mod windows;
pub mod writing;

use vstd::prelude::*;

use crate::domain::group::Group;
use crate::domain::identity::{Identity, IdentityKey};
use crate::domain::one_of;
use crate::domain::password::Password;
use crate::domain::user::{User, UserKey};

verus! {

/// The tables of the database.
pub struct Tables {
    pub users: Seq<User>,
    pub identities: Seq<Identity>,
    pub groups: Seq<Group>,
    pub passwords: Seq<Password>,
}

/// Whether an answer is one that the database may give to a lookup of a device.
pub open spec fn answers_device(rows: Seq<Identity>, key: IdentityKey, reply: Option<
    Identity,
>) -> bool {
    one_of(rows, |row: Identity| key.finds(row), reply)
}

/// Whether an answer is one that the database may give to a lookup of an
/// account.
pub open spec fn answers_account(rows: Seq<User>, key: UserKey, reply: Option<User>) -> bool {
    one_of(rows, |row: User| key.finds(row), reply)
}

/// Whether no two devices have the same identifier.
pub open spec fn devices_distinct(rows: Seq<Identity>) -> bool {
    forall|i: int, j: int|
        0 <= i < j < rows.len() ==> (#[trigger] rows[i]).uuid@ != (#[trigger] rows[j]).uuid@
}

/// Whether no two devices have the same address.
pub open spec fn addresses_distinct(rows: Seq<Identity>) -> bool {
    forall|i: int, j: int|
        0 <= i < j < rows.len() ==> (#[trigger] rows[i]).ip_address@ != (
        #[trigger] rows[j]).ip_address@
}

/// Whether no two accounts have the same identifier.
pub open spec fn accounts_distinct(rows: Seq<User>) -> bool {
    forall|i: int, j: int|
        0 <= i < j < rows.len() ==> (#[trigger] rows[i]).uuid@ != (#[trigger] rows[j]).uuid@
}

/// Whether no two passwords have the same identifier.
pub open spec fn passwords_distinct(rows: Seq<Password>) -> bool {
    forall|i: int, j: int|
        0 <= i < j < rows.len() ==> (#[trigger] rows[i]).uuid@ != (#[trigger] rows[j]).uuid@
}

/// Whether no two accounts have the same name.
pub open spec fn names_distinct(rows: Seq<User>) -> bool {
    forall|i: int, j: int|
        0 <= i < j < rows.len() ==> (#[trigger] rows[i]).name@ != (#[trigger] rows[j]).name@
}

} // verus!
