//! What an account gets back of what it stored, and for how long.

use vstd::prelude::*;

use crate::crypto::keys::opened;
use crate::domain::group::{Group, GroupList};
use crate::domain::identity::Identity;
use crate::domain::one_of;
use crate::domain::password::{
    password_stored, Password, PasswordCommand, PasswordKey, PasswordList,
};
use crate::error::Failure;
use crate::outside::hex_bytes;
use crate::routes::device_key;
use crate::routes::passwords::{
    days_left, expired_at, group_ids, outgoing, page_of, rewrites, size_of, window_days,
    ListParams, UpdatePasswordRequest,
};
use crate::routes::signin::sealed_text;

verus! {

/// Whatever device of an account stored a password, any device reads the same
/// one: what is resealed for it opens, under the key of that device, to what was
/// stored.
pub proof fn law_stored_password_is_read_back(
    stored: Seq<char>,
    plaintext: Seq<u8>,
    reader: Identity,
    secret: Seq<u8>,
    resealed: Seq<char>,
)
    requires
        sealed_text(stored, secret, plaintext),
        device_key(reader, secret) is Ok,
        outgoing(stored, reader, secret) is Ok ==> sealed_text(
            resealed,
            outgoing(stored, reader, secret)->Ok_0.0,
            outgoing(stored, reader, secret)->Ok_0.1,
        ),
    ensures
        outgoing(stored, reader, secret) == Ok::<(Seq<u8>, Seq<u8>), Failure>(
            (device_key(reader, secret)->Ok_0, plaintext),
        ),
        opened(hex_bytes(resealed), device_key(reader, secret)->Ok_0) == Ok::<Seq<u8>, Failure>(
            plaintext,
        ),
{
}

/// A password that was created is found under its identifier, and every device
/// reads in it what was sent.
pub proof fn law_created_password_is_read_back(
    before: Seq<Password>,
    after: Seq<Password>,
    command: PasswordCommand,
    plaintext: Seq<u8>,
    secret: Seq<u8>,
    key: PasswordKey,
    reply: Option<Password>,
    reader: Identity,
)
    requires
        command is Insert,
        sealed_text(command->Insert_0.pwd@, secret, plaintext),
        command.effect(before, after),
        forall|i: int|
            0 <= i < before.len() ==> (#[trigger] before[i]).uuid@ != command->Insert_0.uuid@,
        key->Uuid_0@ == command->Insert_0.uuid@,
        one_of(after, |row: Password| key.finds(row), reply),
        device_key(reader, secret) is Ok,
    ensures
        reply is Some,
        reply->0.group_id@ == command->Insert_0.group_id@,
        reply->0.name@ == command->Insert_0.name@,
        reply->0.extra@ == command->Insert_0.extra@,
        outgoing(reply->0.pwd@, reader, secret) == Ok::<(Seq<u8>, Seq<u8>), Failure>(
            (device_key(reader, secret)->Ok_0, plaintext),
        ),
{
    let wanted = |row: Password| key.finds(row);
    let new = choose|row: Password| #[trigger]
        password_stored(command->Insert_0, row) && after == before.push(row);
    assert(after[before.len() as int] == new);
    assert(after.contains(new));
    assert(wanted(new));
    assert(reply is Some && wanted(reply->0));
    let i = choose|i: int| 0 <= i < after.len() && after[i] == reply->0;
    if i < before.len() {
        assert(after[i] == before[i]);
    }
    assert(reply->0 == new);
}

/// An update puts the new password in the place of the old one, starts the
/// window of validity at the moment of the update, and keeps the time of
/// creation and the length of the window. No other password changes.
pub proof fn law_update_restarts_the_window(
    before: Seq<Password>,
    after: Seq<Password>,
    command: PasswordCommand,
    uuid: Seq<char>,
    request: UpdatePasswordRequest,
    secret: Seq<u8>,
    plaintext: Seq<u8>,
    i: int,
)
    requires
        rewrites(command, uuid, request, secret, plaintext),
        command.effect(before, after),
        0 <= i < before.len(),
        before[i].valid_since_days >= 1,
    ensures
        after.len() == before.len(),
        before[i].uuid@ != uuid ==> after[i] == before[i],
        before[i].uuid@ == uuid ==> {
            &&& sealed_text(after[i].pwd@, secret, plaintext)
            &&& after[i].group_id == request.group_id
            &&& after[i].created_at == before[i].created_at
            &&& after[i].updated_at == after[i].valid_since
            &&& after[i].valid_since_days == before[i].valid_since_days
            &&& !expired_at(after[i], after[i].valid_since@)
            &&& days_left(
                after[i].valid_since@,
                after[i].valid_since_days as int,
                after[i].updated_at@,
            ) == before[i].valid_since_days
        },
{
}

/// A window that a request asks for is between one day and a year long, so that
/// a new password is never expired at once.
pub proof fn law_new_password_is_valid(asked: Option<i32>, moment: int)
    ensures
        1 <= window_days(asked) <= 365,
        days_left(moment, window_days(asked), moment) == window_days(asked),
{
}

/// The days left are never negative and never more than the window has. They
/// never grow.
pub proof fn law_days_left_run_out(valid_since: int, days: int, now: int, later: int)
    requires
        0 <= days,
        now <= later,
    ensures
        0 <= days_left(valid_since, days, now) <= days,
        days_left(valid_since, days, later) <= days_left(valid_since, days, now),
{
    let day = crate::time::NANOS_PER_DAY as int;
    if valid_since <= now {
        assert((now - valid_since) / day <= (later - valid_since) / day);
    }
}

/// A password is expired from the moment on at which as many days have passed
/// as its window has.
pub proof fn law_expiry_is_by_whole_days(row: Password, now: int)
    requires
        1 <= row.valid_since_days,
    ensures
        expired_at(row, now) <==> row.valid_since@ <= now && (now - row.valid_since@) / (
        crate::time::NANOS_PER_DAY as int) >= row.valid_since_days,
{
}

/// Every password is in one of the two lists, and in one only.
pub proof fn law_lists_part_the_passwords(rows: Seq<Password>, now: int)
    ensures
        rows.filter(|row: Password| expired_at(row, now) == true).len() + rows.filter(
            |row: Password| expired_at(row, now) == false,
        ).len() == rows.len(),
        forall|row: Password| #[trigger]
            rows.contains(row) ==> (rows.filter(
                |row: Password| expired_at(row, now) == true,
            ).contains(row) <==> !rows.filter(
                |row: Password| expired_at(row, now) == false,
            ).contains(row)),
    decreases rows.len(),
{
    let expired = |row: Password| expired_at(row, now) == true;
    let valid = |row: Password| expired_at(row, now) == false;
    broadcast use vstd::seq_lib::group_filter_ensures;
    reveal(Seq::filter);
    if rows.len() > 0 {
        law_lists_part_the_passwords(rows.drop_last(), now);
    }
    assert forall|row: Password| #[trigger] rows.contains(row) implies (rows.filter(
        expired,
    ).contains(row) <==> !rows.filter(valid).contains(row)) by {
        if rows.filter(expired).contains(row) {
            let k = choose|k: int|
                0 <= k < rows.filter(expired).len() && rows.filter(expired)[k] == row;
            assert(expired(rows.filter(expired)[k]));
        }
        if rows.filter(valid).contains(row) {
            let k = choose|k: int|
                0 <= k < rows.filter(valid).len() && rows.filter(valid)[k] == row;
            assert(valid(rows.filter(valid)[k]));
        }
        let i = choose|i: int| 0 <= i < rows.len() && rows[i] == row;
        if expired(row) {
            assert(rows.filter(expired).contains(rows[i]));
        } else {
            assert(rows.filter(valid).contains(rows[i]));
        }
    }
}

/// Two pages, one behind the other, are the page of both lengths: paging skips
/// nothing and shows nothing twice.
pub proof fn law_pages_join<T>(items: Seq<T>, offset: int, first: int, second: int)
    requires
        0 <= offset,
        0 < first,
        0 < second,
    ensures
        page_of(items, offset, first) + page_of(items, offset + first, second) == page_of(
            items,
            offset,
            first + second,
        ),
{
    assert(page_of(items, offset, first) + page_of(items, offset + first, second) =~= page_of(
        items,
        offset,
        first + second,
    ));
}

/// A page holds at least one password, if there is one behind its offset, and
/// never more than two hundred.
pub proof fn law_page_sizes(params: ListParams, items: Seq<Password>, offset: int)
    requires
        0 <= offset < items.len(),
    ensures
        1 <= page_of(items, offset, size_of(params)).len() <= 200,
{
}

/// The groups of two accounts have no group in common.
pub proof fn law_groups_are_apart(group: Group, one: GroupList, other: GroupList)
    requires
        one.lists(group),
        other.lists(group),
    ensures
        one->User_0@ == other->User_0@,
{
}

/// A password that is listed for an account is in a group of that account.
pub proof fn law_listed_passwords_are_owned(
    groups: Seq<Group>,
    owner: Seq<char>,
    list: PasswordList,
    row: Password,
)
    requires
        forall|g: Group| #[trigger] groups.contains(g) ==> g.user_id@ == owner,
        list matches PasswordList::Groups(ids) && ids@ == group_ids(groups),
        list.lists(row),
    ensures
        exists|g: Group| #[trigger]
            groups.contains(g) && g.uuid@ == row.group_id@ && g.user_id@ == owner,
{
    let ids = list->Groups_0@;
    let i = choose|i: int| 0 <= i < ids.len() && (#[trigger] ids[i])@ == row.group_id@;
    assert(groups[i].uuid == ids[i]);
    assert(groups.contains(groups[i]));
}

} // verus!
