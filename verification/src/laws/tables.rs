//! What lookups, lists and changes mean for the rows of the tables.

use vstd::prelude::*;

use crate::domain::group::{group_stored, Group, GroupCommand, GroupKey, GroupList, NewGroup};
use crate::domain::identity::{
    identity_stored, Identity, IdentityCommand, IdentityKey, IdentityList, NewIdentity,
    UpdateIdentity,
};
use crate::domain::password::{
    password_stored, NewPassword, Password, PasswordCommand, PasswordKey, PasswordList,
    UpdatePassword,
};
use crate::domain::user::{user_stored, NewUser, UpdateUser, User, UserCommand, UserKey};
use crate::domain::{all_of, one_of};
use crate::time::Timestamp;

verus! {

/// A device is looked up by its address, by its token as it is stored, or by its
/// identifier. One without a token is found by no token.
pub proof fn law_devices_are_found_by_what_is_asked(
    text: &str,
    by_ip: IdentityKey,
    by_token: IdentityKey,
    by_uuid: IdentityKey,
    row: Identity,
)
    requires
        call_ensures(Identity::find_by_ip, (text,), by_ip),
        call_ensures(Identity::find_by_device_token, (text,), by_token),
        call_ensures(Identity::find_by_uuid, (text,), by_uuid),
    ensures
        by_ip.finds(row) <==> row.ip_address@ == text@,
        by_token.finds(row) <==> row.device_token is Some && row.device_token->0@ == text@,
        by_uuid.finds(row) <==> row.uuid@ == text@,
{
}

/// An account is looked up by its identifier or by its name, whether it is
/// deleted or not.
pub proof fn law_accounts_are_found_by_what_is_asked(
    text: &str,
    by_uuid: UserKey,
    by_name: UserKey,
    row: User,
)
    requires
        call_ensures(User::find_by_uuid, (text,), by_uuid),
        call_ensures(User::find_by_name, (text,), by_name),
    ensures
        by_uuid.finds(row) <==> row.uuid@ == text@,
        by_name.finds(row) <==> row.name@ == text@,
{
}

/// Groups and passwords are looked up by their identifiers. The groups of an
/// account are listed by it, and passwords by their groups.
pub proof fn law_groups_and_passwords_are_found_by_what_is_asked(
    text: &str,
    ids: Vec<String>,
    group_key: GroupKey,
    password_key: PasswordKey,
    groups: GroupList,
    passwords: PasswordList,
    group: Group,
    password: Password,
)
    requires
        call_ensures(Group::find_by_uuid, (text,), group_key),
        call_ensures(Password::find_by_uuid, (text,), password_key),
        call_ensures(Group::find_by_user, (text,), groups),
        call_ensures(Password::find_by_groups, (ids,), passwords),
    ensures
        group_key.finds(group) <==> group.uuid@ == text@,
        password_key.finds(password) <==> password.uuid@ == text@,
        groups.lists(group) <==> group.user_id@ == text@,
        passwords.lists(password) <==> exists|i: int|
            0 <= i < ids@.len() && (#[trigger] ids@[i])@ == password.group_id@,
{
}

/// Of the devices, all are listed, or those that are not confirmed.
pub proof fn law_devices_are_listed_by_what_is_asked(
    all: IdentityList,
    pending: IdentityList,
    row: Identity,
)
    requires
        call_ensures(Identity::find_all, (), all),
        call_ensures(Identity::find_pending, (), pending),
    ensures
        all.lists(row),
        pending.lists(row) <==> !row.is_confirmed,
{
}

/// A lookup gives a row that meets its condition, and nothing only where none
/// does. A list gives each row that meets its condition as often as the table
/// holds it.
pub proof fn law_replies_meet_their_conditions<R>(
    rows: Seq<R>,
    wanted: spec_fn(R) -> bool,
    one: Option<R>,
    all: Seq<R>,
    row: R,
)
    requires
        one_of(rows, wanted, one),
        all_of(rows, wanted, all),
    ensures
        one matches Some(found) ==> rows.contains(found) && wanted(found),
        rows.contains(row) && wanted(row) ==> one is Some,
        all.contains(row) <==> rows.contains(row) && wanted(row),
{
    broadcast use vstd::seq_lib::group_filter_ensures;
    broadcast use vstd::seq_lib::group_to_multiset_ensures;

    let kept = rows.filter(wanted);
    assert(all.contains(row) <==> all.to_multiset().count(row) > 0);
    assert(kept.contains(row) <==> kept.to_multiset().count(row) > 0);
    if rows.contains(row) && wanted(row) {
        let i = choose|i: int| 0 <= i < rows.len() && rows[i] == row;
        assert(kept.contains(rows[i]));
    }
    if kept.contains(row) {
        let i = choose|i: int| 0 <= i < kept.len() && kept[i] == row;
        assert(wanted(rows.filter(wanted)[i]));
        rows.lemma_filter_contains_rev(wanted, row);
    }
}

/// A change to a device sets what it names and the time of change, of the device
/// that it names, and leaves the rest of the table as it is.
pub proof fn law_changes_to_a_device_set_what_they_name(
    uuid: &str,
    changes: UpdateIdentity,
    now: Timestamp,
    command: IdentityCommand,
    before: Seq<Identity>,
    after: Seq<Identity>,
    i: int,
)
    requires
        call_ensures(Identity::update_at, (uuid, changes, now), command),
        command.effect(before, after),
        0 <= i < before.len(),
    ensures
        after.len() == before.len(),
        before[i].uuid@ != uuid@ ==> after[i] == before[i],
        before[i].uuid@ == uuid@ ==> {
            let row = after[i];
            &&& row.updated_at == now
            &&& row.user_id == if changes.user_id is Some {
                changes.user_id
            } else {
                before[i].user_id
            }
            &&& row.ip_address == if changes.ip_address is Some {
                changes.ip_address->0
            } else {
                before[i].ip_address
            }
            &&& row.device_token == if changes.device_token is Some {
                changes.device_token
            } else {
                before[i].device_token
            }
            &&& row.client_public_key == if changes.client_public_key is Some {
                changes.client_public_key->0
            } else {
                before[i].client_public_key
            }
            &&& row.extra == if changes.extra is Some {
                changes.extra->0
            } else {
                before[i].extra
            }
            &&& row.is_confirmed == if changes.is_confirmed is Some {
                changes.is_confirmed->0
            } else {
                before[i].is_confirmed
            }
            &&& row.uuid == before[i].uuid
            &&& row.server_private_key == before[i].server_private_key
            &&& row.server_public_key == before[i].server_public_key
            &&& row.created_at == before[i].created_at
        },
{
}

/// A change to an account sets what it names and the time of change, of the
/// account that it names, and leaves the rest of the table as it is.
pub proof fn law_changes_to_an_account_set_what_they_name(
    uuid: &str,
    changes: UpdateUser,
    now: Timestamp,
    command: UserCommand,
    before: Seq<User>,
    after: Seq<User>,
    i: int,
)
    requires
        call_ensures(User::update_at, (uuid, changes, now), command),
        command.effect(before, after),
        0 <= i < before.len(),
    ensures
        after.len() == before.len(),
        before[i].uuid@ != uuid@ ==> after[i] == before[i],
        before[i].uuid@ == uuid@ ==> {
            let row = after[i];
            &&& row.updated_at == now
            &&& row.is_deleted == if changes.is_deleted is Some {
                changes.is_deleted->0
            } else {
                before[i].is_deleted
            }
            &&& row.extra == if changes.extra is Some {
                changes.extra->0
            } else {
                before[i].extra
            }
            &&& row.uuid == before[i].uuid
            &&& row.name == before[i].name
            &&& row.ehlo_secret == before[i].ehlo_secret
            &&& row.created_at == before[i].created_at
        },
{
}

/// A change to a password sets what it names, of the password that it names,
/// leaves the rest of the table as it is, and starts the window of the password
/// anew.
pub proof fn law_changes_to_a_password_set_what_they_name(
    uuid: &str,
    changes: UpdatePassword,
    now: Timestamp,
    command: PasswordCommand,
    before: Seq<Password>,
    after: Seq<Password>,
    i: int,
)
    requires
        call_ensures(Password::update_at, (uuid, changes, now), command),
        command.effect(before, after),
        0 <= i < before.len(),
    ensures
        after.len() == before.len(),
        before[i].uuid@ != uuid@ ==> after[i] == before[i],
        before[i].uuid@ == uuid@ ==> {
            let row = after[i];
            &&& row.updated_at == now
            &&& row.valid_since == now
            &&& row.pwd == if changes.pwd is Some {
                changes.pwd->0
            } else {
                before[i].pwd
            }
            &&& row.group_id == if changes.group_id is Some {
                changes.group_id->0
            } else {
                before[i].group_id
            }
            &&& row.name == if changes.name is Some {
                changes.name->0
            } else {
                before[i].name
            }
            &&& row.extra == if changes.extra is Some {
                changes.extra->0
            } else {
                before[i].extra
            }
            &&& row.valid_since_days == if changes.valid_since_days is Some {
                changes.valid_since_days->0
            } else {
                before[i].valid_since_days
            }
            &&& row.uuid == before[i].uuid
            &&& row.created_at == before[i].created_at
        },
{
}

/// Changes that are made now are dated by the clock.
pub proof fn law_changes_are_dated_by_the_clock(
    uuid: &str,
    device_changes: UpdateIdentity,
    account_changes: UpdateUser,
    password_changes: UpdatePassword,
    device: IdentityCommand,
    account: UserCommand,
    password: PasswordCommand,
)
    requires
        call_ensures(Identity::update, (uuid, device_changes), device),
        call_ensures(User::update, (uuid, account_changes), account),
        call_ensures(Password::update, (uuid, password_changes), password),
    ensures
        device matches IdentityCommand::Update { uuid: u, changes, updated_at } && u@ == uuid@
            && changes == device_changes && updated_at.given(),
        account matches UserCommand::Update { uuid: u, changes, updated_at } && u@ == uuid@
            && changes == account_changes && updated_at.given(),
        password matches PasswordCommand::Update { uuid: u, changes, updated_at, valid_since }
            && u@ == uuid@ && changes == password_changes && updated_at.given() && valid_since
            == updated_at,
{
}

/// What is stored becomes the last row of its table, as it was to be stored.
pub proof fn law_what_is_stored_is_the_last_row(
    device: NewIdentity,
    account: NewUser,
    devices: (Seq<Identity>, Seq<Identity>),
    accounts: (Seq<User>, Seq<User>),
    device_command: IdentityCommand,
    account_command: UserCommand,
)
    requires
        call_ensures(Identity::create, (device,), device_command),
        call_ensures(User::create, (account,), account_command),
        device_command.effect(devices.0, devices.1),
        account_command.effect(accounts.0, accounts.1),
    ensures
        ({
            let row = devices.1.last();
            &&& devices.1 == devices.0.push(row)
            &&& row.uuid == device.uuid
            &&& row.user_id == device.user_id
            &&& row.ip_address == device.ip_address
            &&& row.device_token == device.device_token
            &&& row.server_private_key == device.server_private_key
            &&& row.server_public_key == device.server_public_key
            &&& row.client_public_key == device.client_public_key
            &&& row.extra == device.extra
            &&& row.is_confirmed == device.is_confirmed
        }),
        ({
            let row = accounts.1.last();
            &&& accounts.1 == accounts.0.push(row)
            &&& row.uuid == account.uuid
            &&& row.name == account.name
            &&& row.ehlo_secret == account.ehlo_secret
            &&& row.is_deleted == account.is_deleted
            &&& row.extra == account.extra
        }),
{
    let row = choose|row: Identity| #[trigger]
        identity_stored(device, row) && devices.1 == devices.0.push(row);
    assert(devices.1.last() == row);
    let row = choose|row: User| #[trigger]
        user_stored(account, row) && accounts.1 == accounts.0.push(row);
    assert(accounts.1.last() == row);
}

/// The same holds of groups and of passwords.
pub proof fn law_stored_groups_and_passwords_are_the_last_rows(
    group: NewGroup,
    password: NewPassword,
    groups: (Seq<Group>, Seq<Group>),
    passwords: (Seq<Password>, Seq<Password>),
    group_command: GroupCommand,
    password_command: PasswordCommand,
)
    requires
        call_ensures(Group::create, (group,), group_command),
        call_ensures(Password::create, (password,), password_command),
        group_command.effect(groups.0, groups.1),
        password_command.effect(passwords.0, passwords.1),
    ensures
        ({
            let row = groups.1.last();
            &&& groups.1 == groups.0.push(row)
            &&& row.uuid == group.uuid
            &&& row.user_id == group.user_id
            &&& row.name == group.name
            &&& row.extra == group.extra
        }),
        ({
            let row = passwords.1.last();
            &&& passwords.1 == passwords.0.push(row)
            &&& row.uuid == password.uuid
            &&& row.group_id == password.group_id
            &&& row.pwd == password.pwd
            &&& row.name == password.name
            &&& row.extra == password.extra
            &&& row.valid_since_days == password.valid_since_days
            &&& row.valid_since == password.valid_since
        }),
{
    let row = choose|row: Group| #[trigger]
        group_stored(group, row) && groups.1 == groups.0.push(row);
    assert(groups.1.last() == row);
    let row = choose|row: Password| #[trigger]
        password_stored(password, row) && passwords.1 == passwords.0.push(row);
    assert(passwords.1.last() == row);
}

} // verus!
