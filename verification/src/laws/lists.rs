//! What the two lists of an account's passwords hold together.

use vstd::prelude::*;

use crate::domain::all_of;
use crate::domain::group::{Group, GroupList};
use crate::domain::identity::Identity;
use crate::domain::password::{Password, PasswordCommand, PasswordList};
use crate::error::AppResult;
use crate::laws::passwords::law_lists_part_the_passwords;
use crate::laws::{passwords_distinct, Tables};
use crate::routes::passwords::{
    entry_shows, expired_at, group_ids, list_result, offset_of, page_of, shown, shown_expiry,
    size_of, wants_expired, ListParams, PasswordEntry,
};

verus! {

/// Whether a password is in a group of an account.
pub open spec fn owned_by(db: Tables, row: Password, owner: Seq<char>) -> bool {
    exists|g: Group| #[trigger]
        db.groups.contains(g) && g.uuid@ == row.group_id@ && g.user_id@ == owner
}

/// Whether some entries show a password.
pub open spec fn listed(entries: Seq<PasswordEntry>, uuid: Seq<char>) -> bool {
    exists|i: int| 0 <= i < entries.len() && (#[trigger] entries[i]).uuid@ == uuid
}

/// Whether an identifier is that of a password in a group of an account.
pub open spec fn owned_id(db: Tables, uuid: Seq<char>, owner: Seq<char>) -> bool {
    exists|row: Password| #[trigger]
        db.passwords.contains(row) && row.uuid@ == uuid && owned_by(db, row, owner)
}

/// Whether rows are those that the database may give for the passwords of an
/// account: those of the groups that it gave for the account.
pub open spec fn account_answers(
    db: Tables,
    owner: Seq<char>,
    group_list: GroupList,
    groups: Seq<Group>,
    list: PasswordList,
    rows: Seq<Password>,
) -> bool {
    &&& group_list->User_0@ == owner
    &&& all_of(db.groups, |g: Group| group_list.lists(g), groups)
    &&& list->Groups_0@ == group_ids(groups)
    &&& all_of(db.passwords, |p: Password| list.lists(p), rows)
}

/// A reply with every row of a table that meets a condition holds those rows and
/// no others.
proof fn lemma_all_of<R>(rows: Seq<R>, wanted: spec_fn(R) -> bool, reply: Seq<R>)
    requires
        all_of(rows, wanted, reply),
    ensures
        forall|x: R| #[trigger] reply.contains(x) <==> rows.contains(x) && wanted(x),
{
    broadcast use vstd::seq_lib::group_to_multiset_ensures;

    let some = rows.filter(wanted);
    assert forall|x: R| #[trigger] reply.contains(x) <==> rows.contains(x) && wanted(x) by {
        assert(reply.contains(x) <==> reply.to_multiset().count(x) > 0);
        assert(some.contains(x) <==> some.to_multiset().count(x) > 0);
        if some.contains(x) {
            let k = choose|k: int| 0 <= k < some.len() && some[k] == x;
            rows.lemma_filter_pred(wanted, k);
            rows.lemma_filter_contains_rev(wanted, x);
        }
        if rows.contains(x) && wanted(x) {
            let k = choose|k: int| 0 <= k < rows.len() && rows[k] == x;
            rows.lemma_filter_contains(wanted, k);
        }
    }
}

/// Filtering repeats nothing.
proof fn lemma_filter_repeats_nothing<R>(rows: Seq<R>, wanted: spec_fn(R) -> bool)
    requires
        rows.no_duplicates(),
    ensures
        rows.filter(wanted).no_duplicates(),
    decreases rows.len(),
{
    reveal(Seq::filter);
    if rows.len() > 0 {
        let head = rows.drop_last();
        lemma_filter_repeats_nothing(head, wanted);
        let some = head.filter(wanted);
        assert forall|i: int| 0 <= i < some.len() implies #[trigger] some[i] != rows.last() by {
            head.lemma_filter_contains_rev(wanted, some[i]);
            let k = choose|k: int| 0 <= k < head.len() && head[k] == some[i];
            assert(rows[k] == head[k]);
        }
    }
}

/// Rows of a table with distinct identifiers have distinct identifiers.
proof fn lemma_reply_is_distinct(
    table: Seq<Password>,
    wanted: spec_fn(Password) -> bool,
    rows: Seq<Password>,
)
    requires
        passwords_distinct(table),
        all_of(table, wanted, rows),
    ensures
        passwords_distinct(rows),
{
    assert(table.no_duplicates());
    lemma_filter_repeats_nothing(table, wanted);
    table.filter(wanted).lemma_multiset_has_no_duplicates();
    rows.lemma_multiset_has_no_duplicates_conv();
    lemma_all_of(table, wanted, rows);
    assert forall|i: int, j: int| 0 <= i < j < rows.len() implies (#[trigger] rows[i]).uuid@ != (
    #[trigger] rows[j]).uuid@ by {
        assert(rows.contains(rows[i]));
        assert(rows.contains(rows[j]));
        let k = choose|k: int| 0 <= k < table.len() && table[k] == rows[i];
        let l = choose|l: int| 0 <= l < table.len() && table[l] == rows[j];
        assert(k != l);
        if k < l {
            assert(table[k].uuid@ != table[l].uuid@);
        } else {
            assert(table[l].uuid@ != table[k].uuid@);
        }
    }
}

/// What filtering leaves of passwords with distinct identifiers.
proof fn lemma_filtered_rows(rows: Seq<Password>, wanted: spec_fn(Password) -> bool)
    requires
        passwords_distinct(rows),
    ensures
        passwords_distinct(rows.filter(wanted)),
        rows.filter(wanted).len() <= rows.len(),
        forall|x: Password| #[trigger]
            rows.filter(wanted).contains(x) <==> rows.contains(x) && wanted(x),
{
    assert(all_of(rows, wanted, rows.filter(wanted)));
    lemma_reply_is_distinct(rows, wanted, rows.filter(wanted));
    lemma_all_of(rows, wanted, rows.filter(wanted));
    rows.lemma_filter_len(wanted);
}

/// A list that leaves nothing out and has room for everything.
pub open spec fn whole(params: ListParams, rows: Seq<Password>) -> bool {
    offset_of(params) == 0 && rows.len() <= size_of(params)
}

/// Whether an identifier is that of a row which is expired or not, as asked.
spec fn held(rows: Seq<Password>, uuid: Seq<char>, now: int, expired: bool) -> bool {
    exists|row: Password| #[trigger]
        rows.contains(row) && row.uuid@ == uuid && expired_at(row, now) == expired
}

/// Two rows with distinct identifiers that have the same one are the same row.
proof fn lemma_same_row(rows: Seq<Password>, a: Password, b: Password)
    requires
        passwords_distinct(rows),
        rows.contains(a),
        rows.contains(b),
        a.uuid@ == b.uuid@,
    ensures
        a == b,
{
    let k = choose|k: int| 0 <= k < rows.len() && rows[k] == a;
    let l = choose|l: int| 0 <= l < rows.len() && rows[l] == b;
    if k < l {
        assert(rows[k].uuid@ != rows[l].uuid@);
    } else if l < k {
        assert(rows[l].uuid@ != rows[k].uuid@);
    }
}

/// The rows that the database gives for an account are the passwords in its
/// groups.
proof fn lemma_account_rows(
    db: Tables,
    owner: Seq<char>,
    group_list: GroupList,
    groups: Seq<Group>,
    list: PasswordList,
    rows: Seq<Password>,
)
    requires
        account_answers(db, owner, group_list, groups, list, rows),
    ensures
        forall|row: Password| #[trigger]
            rows.contains(row) <==> db.passwords.contains(row) && owned_by(db, row, owner),
{
    lemma_all_of(db.groups, |g: Group| group_list.lists(g), groups);
    lemma_all_of(db.passwords, |p: Password| list.lists(p), rows);
    let ids = group_ids(groups);
    assert forall|row: Password| list.lists(row) <==> #[trigger] owned_by(db, row, owner) by {
        if list.lists(row) {
            let i = choose|i: int| 0 <= i < ids.len() && (#[trigger] ids[i])@ == row.group_id@;
            assert(groups[i].uuid == ids[i]);
            assert(groups.contains(groups[i]));
        }
        if owned_by(db, row, owner) {
            let g = choose|g: Group| #[trigger]
                db.groups.contains(g) && g.uuid@ == row.group_id@ && g.user_id@ == owner;
            assert(groups.contains(g));
            let i = choose|i: int| 0 <= i < groups.len() && groups[i] == g;
            assert(ids[i]@ == row.group_id@);
        }
    }
}

/// A list with room for everything has one entry for each password that is
/// expired or not, as asked.
proof fn lemma_whole_list(
    r: AppResult<Vec<PasswordEntry>>,
    rows: Seq<Password>,
    params: ListParams,
    device: Identity,
    secret: Seq<u8>,
    now: int,
)
    requires
        passwords_distinct(rows),
        whole(params, rows),
        r is Ok,
        list_result(r, rows, params, device, secret, now),
    ensures
        r->Ok_0@.len() == rows.filter(
            |row: Password| expired_at(row, now) == wants_expired(params),
        ).len(),
        forall|i: int, j: int|
            0 <= i < j < r->Ok_0@.len() ==> (#[trigger] r->Ok_0@[i]).uuid@ != (
            #[trigger] r->Ok_0@[j]).uuid@,
        forall|i: int|
            0 <= i < r->Ok_0@.len() ==> held(
                rows,
                (#[trigger] r->Ok_0@[i]).uuid@,
                now,
                wants_expired(params),
            ),
        forall|row: Password|
            rows.contains(row) && #[trigger] expired_at(row, now) == wants_expired(params)
                ==> listed(r->Ok_0@, row.uuid@),
        forall|i: int|
            0 <= i < r->Ok_0@.len() ==> if wants_expired(params) {
                (#[trigger] r->Ok_0@[i]).expires == 0
            } else {
                r->Ok_0@[i].expires > 0
            },
{
    let wanted = |row: Password| expired_at(row, now) == wants_expired(params);
    let some = rows.filter(wanted);
    let entries = r->Ok_0@;
    lemma_filtered_rows(rows, wanted);
    let page = shown(rows, params, now);
    assert(page == page_of(some, 0, size_of(params)));
    assert(page =~= some);
    assert forall|i: int| 0 <= i < entries.len() implies (#[trigger] entries[i]).uuid@
        == some[i].uuid@ && entries[i].expires == shown_expiry(some[i], params, now) by {
        assert(entry_shows(
            entries[i],
            page[i],
            device,
            secret,
            shown_expiry(page[i], params, now),
        ));
    }
    assert forall|i: int| 0 <= i < entries.len() implies {
        &&& held(rows, (#[trigger] entries[i]).uuid@, now, wants_expired(params))
        &&& wants_expired(params) ==> entries[i].expires == 0
        &&& !wants_expired(params) ==> entries[i].expires > 0
    } by {
        assert(some.contains(some[i]));
        assert(rows.contains(some[i]) && wanted(some[i]));
        assert(entries[i].uuid@ == some[i].uuid@);
    }
    assert forall|row: Password|
        rows.contains(row) && #[trigger] expired_at(row, now) == wants_expired(
            params,
        ) implies listed(entries, row.uuid@) by {
        assert(wanted(row));
        assert(some.contains(row));
        let k = choose|k: int| 0 <= k < some.len() && some[k] == row;
        assert(entries[k].uuid@ == row.uuid@);
    }
}

/// At one moment the list of the valid passwords of an account and the list of
/// the expired ones, both with room for everything, hold every password of the
/// account once between them, and none of another account. What is valid has
/// days left, what is expired has none.
pub proof fn law_lists_hold_each_password_once(
    db: Tables,
    owner: Seq<char>,
    group_list: GroupList,
    groups: Seq<Group>,
    list: PasswordList,
    rows: Seq<Password>,
    valid_params: ListParams,
    expired_params: ListParams,
    valid: AppResult<Vec<PasswordEntry>>,
    expired: AppResult<Vec<PasswordEntry>>,
    device: Identity,
    secret: Seq<u8>,
    now: int,
)
    requires
        passwords_distinct(db.passwords),
        account_answers(db, owner, group_list, groups, list, rows),
        !wants_expired(valid_params) && whole(valid_params, rows),
        wants_expired(expired_params) && whole(expired_params, rows),
        valid is Ok && list_result(valid, rows, valid_params, device, secret, now),
        expired is Ok && list_result(expired, rows, expired_params, device, secret, now),
    ensures
        valid->Ok_0@.len() + expired->Ok_0@.len() == rows.len(),
        forall|i: int, j: int|
            0 <= i < valid->Ok_0@.len() && 0 <= j < expired->Ok_0@.len() ==> (
            #[trigger] valid->Ok_0@[i]).uuid@ != (#[trigger] expired->Ok_0@[j]).uuid@,
        forall|i: int, j: int|
            0 <= i < j < valid->Ok_0@.len() ==> (#[trigger] valid->Ok_0@[i]).uuid@ != (
            #[trigger] valid->Ok_0@[j]).uuid@,
        forall|i: int, j: int|
            0 <= i < j < expired->Ok_0@.len() ==> (#[trigger] expired->Ok_0@[i]).uuid@ != (
            #[trigger] expired->Ok_0@[j]).uuid@,
        forall|row: Password| #[trigger]
            db.passwords.contains(row) ==> (owned_by(db, row, owner) <==> listed(
                valid->Ok_0@,
                row.uuid@,
            ) || listed(expired->Ok_0@, row.uuid@)),
        forall|i: int|
            0 <= i < valid->Ok_0@.len() ==> owned_id(
                db,
                (#[trigger] valid->Ok_0@[i]).uuid@,
                owner,
            ),
        forall|i: int|
            0 <= i < expired->Ok_0@.len() ==> owned_id(
                db,
                (#[trigger] expired->Ok_0@[i]).uuid@,
                owner,
            ),
        forall|i: int| 0 <= i < valid->Ok_0@.len() ==> (#[trigger] valid->Ok_0@[i]).expires > 0,
        forall|i: int|
            0 <= i < expired->Ok_0@.len() ==> (#[trigger] expired->Ok_0@[i]).expires == 0,
{
    let a = valid->Ok_0@;
    let b = expired->Ok_0@;
    lemma_reply_is_distinct(db.passwords, |p: Password| list.lists(p), rows);
    lemma_account_rows(db, owner, group_list, groups, list, rows);
    lemma_whole_list(valid, rows, valid_params, device, secret, now);
    lemma_whole_list(expired, rows, expired_params, device, secret, now);
    law_lists_part_the_passwords(rows, now);
    assert forall|i: int, j: int| 0 <= i < a.len() && 0 <= j < b.len() implies (
    #[trigger] a[i]).uuid@ != (#[trigger] b[j]).uuid@ by {
        let x = choose|row: Password| #[trigger]
            rows.contains(row) && row.uuid@ == a[i].uuid@ && expired_at(row, now) == false;
        let y = choose|row: Password| #[trigger]
            rows.contains(row) && row.uuid@ == b[j].uuid@ && expired_at(row, now) == true;
        assert(held(rows, a[i].uuid@, now, false));
        assert(held(rows, b[j].uuid@, now, true));
        if x.uuid@ == y.uuid@ {
            lemma_same_row(rows, x, y);
        }
    }
    assert forall|row: Password| #[trigger] db.passwords.contains(row) implies (owned_by(
        db,
        row,
        owner,
    ) <==> listed(a, row.uuid@) || listed(b, row.uuid@)) by {
        if owned_by(db, row, owner) {
            assert(rows.contains(row));
            assert(expired_at(row, now) || !expired_at(row, now));
        }
        if listed(a, row.uuid@) {
            let i = choose|i: int| 0 <= i < a.len() && (#[trigger] a[i]).uuid@ == row.uuid@;
            assert(held(rows, a[i].uuid@, now, false));
            let x = choose|x: Password| #[trigger]
                rows.contains(x) && x.uuid@ == a[i].uuid@ && expired_at(x, now) == false;
            lemma_same_row(db.passwords, x, row);
        }
        if listed(b, row.uuid@) {
            let i = choose|i: int| 0 <= i < b.len() && (#[trigger] b[i]).uuid@ == row.uuid@;
            assert(held(rows, b[i].uuid@, now, true));
            let x = choose|x: Password| #[trigger]
                rows.contains(x) && x.uuid@ == b[i].uuid@ && expired_at(x, now) == true;
            lemma_same_row(db.passwords, x, row);
        }
    }
    assert forall|i: int| 0 <= i < a.len() implies owned_id(
        db,
        (#[trigger] a[i]).uuid@,
        owner,
    ) by {
        assert(held(rows, a[i].uuid@, now, false));
    }
    assert forall|i: int| 0 <= i < b.len() implies owned_id(
        db,
        (#[trigger] b[i]).uuid@,
        owner,
    ) by {
        assert(held(rows, b[i].uuid@, now, true));
    }
}

/// Storing a password under a fresh identifier and changing passwords keep their
/// identifiers distinct.
pub proof fn law_password_identifiers_stay_distinct(
    before: Seq<Password>,
    after: Seq<Password>,
    command: PasswordCommand,
)
    requires
        passwords_distinct(before),
        command matches PasswordCommand::Insert(new) ==> forall|i: int|
            0 <= i < before.len() ==> (#[trigger] before[i]).uuid@ != new.uuid@,
        command.effect(before, after),
    ensures
        passwords_distinct(after),
{
    match command {
        PasswordCommand::Insert(new) => {},
        _ => {
            assert forall|i: int, j: int| 0 <= i < j < after.len() implies (
            #[trigger] after[i]).uuid@ != (#[trigger] after[j]).uuid@ by {
                assert(after[i].uuid@ == before[i].uuid@);
                assert(after[j].uuid@ == before[j].uuid@);
            }
        },
    }
}

} // verus!
