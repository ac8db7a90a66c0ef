//! What the endpoints keep of the table of accounts.

use vstd::prelude::*;

use crate::domain::group::{Group, GroupCommand};
use crate::domain::password::{Password, PasswordCommand};
use crate::domain::user::{user_stored, NewUser, User, UserCommand, UserKey};
use crate::error::{refused, Failure};
use crate::laws::{answers_account, names_distinct};
use crate::routes::admin::marks;
use crate::routes::owner_proven;
use crate::routes::signin::sealed_text;

verus! {

/// A sign-up that found no account of its name keeps the names distinct, and
/// whoever looks the name up afterwards finds an account.
pub proof fn law_sign_up_keeps_names_distinct(
    before: Seq<User>,
    after: Seq<User>,
    command: UserCommand,
    key: UserKey,
    later: Option<User>,
)
    requires
        names_distinct(before),
        key is Name,
        answers_account(before, key, None),
        command is Insert,
        command->Insert_0.name@ == key->Name_0@,
        command.effect(before, after),
        answers_account(after, key, later),
    ensures
        names_distinct(after),
        later is Some,
        later->0.name@ == key->Name_0@,
{
    let wanted = |row: User| key.finds(row);
    let new = choose|row: User| #[trigger]
        user_stored(command->Insert_0, row) && after == before.push(row);
    assert forall|i: int| 0 <= i < before.len() implies (#[trigger] before[i]).name@
        != new.name@ by {
        assert(before.contains(before[i]));
        assert(!wanted(before[i]));
    }
    assert(after[before.len() as int] == new);
    assert(after.contains(new));
    assert(wanted(new));
    if later is Some {
        assert(wanted(later->0));
    }
}

/// A name that an account has cannot be signed up again.
pub proof fn law_taken_name_is_found(rows: Seq<User>, i: int, key: UserKey, reply: Option<User>)
    requires
        0 <= i < rows.len(),
        key is Name,
        rows[i].name@ == key->Name_0@,
        answers_account(rows, key, reply),
    ensures
        reply is Some,
{
    let wanted = |row: User| key.finds(row);
    assert(rows.contains(rows[i]));
    assert(wanted(rows[i]));
}

/// Whoever signed an account up can sign in to it with the same secret, and with
/// no other.
pub proof fn law_sign_up_then_sign_in(
    new: NewUser,
    row: User,
    ehlo: Seq<u8>,
    other: Seq<u8>,
    secret: Seq<u8>,
)
    requires
        sealed_text(new.ehlo_secret@, secret, ehlo),
        !new.is_deleted,
        user_stored(new, row),
        other != ehlo,
    ensures
        owner_proven(Some(row), ehlo, secret) is Ok,
        owner_proven(Some(row), other, secret) == Err::<(), Failure>(refused()),
{
}

/// Soft-deleting an account and restoring it leaves every account as it was,
/// but for the time of change of that one.
pub proof fn law_restore_undoes_delete(
    before: Seq<User>,
    between: Seq<User>,
    after: Seq<User>,
    delete: UserCommand,
    restore: UserCommand,
    account: Seq<char>,
)
    requires
        forall|i: int|
            0 <= i < before.len() && (#[trigger] before[i]).uuid@ == account
                ==> !before[i].is_deleted,
        marks(delete, account, true),
        delete.effect(before, between),
        marks(restore, account, false),
        restore.effect(between, after),
    ensures
        after.len() == before.len(),
        forall|i: int|
            0 <= i < before.len() ==> #[trigger] after[i] == (User {
                updated_at: after[i].updated_at,
                ..before[i]
            }),
        forall|i: int|
            0 <= i < before.len() && before[i].uuid@ != account ==> #[trigger] after[i]
                == before[i],
{
}

/// No account is ever removed or renamed, and none loses its secret.
pub proof fn law_accounts_stay(before: Seq<User>, after: Seq<User>, command: UserCommand, i: int)
    requires
        command.effect(before, after),
        0 <= i < before.len(),
    ensures
        i < after.len(),
        after[i].uuid == before[i].uuid,
        after[i].name == before[i].name,
        after[i].ehlo_secret == before[i].ehlo_secret,
        after[i].created_at == before[i].created_at,
{
}

/// No group is ever removed or changed.
pub proof fn law_groups_stay(before: Seq<Group>, after: Seq<Group>, command: GroupCommand, i: int)
    requires
        command.effect(before, after),
        0 <= i < before.len(),
    ensures
        i < after.len(),
        after[i] == before[i],
{
}

/// No password is ever removed, and none changes its time of creation.
pub proof fn law_passwords_stay(
    before: Seq<Password>,
    after: Seq<Password>,
    command: PasswordCommand,
    i: int,
)
    requires
        command.effect(before, after),
        0 <= i < before.len(),
    ensures
        i < after.len(),
        after[i].uuid == before[i].uuid,
        after[i].created_at == before[i].created_at,
{
}

} // verus!
