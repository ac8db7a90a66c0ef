//! How long passwords hold, and what moments are.

use vstd::prelude::*;

use crate::config::Config;
use crate::domain::group::Group;
use crate::domain::password::Password;
use crate::error::AppResult;
use crate::laws::plain::days_until_close;
use crate::routes::passwords::{
    clamp_window, days_remaining, days_remaining_at, is_expired, is_expired_at, list_handler,
    CreateInsert, ListGroups, ListParams, ListPasswords, PasswordEntry,
};
use crate::routes::Session;
use crate::time::Timestamp;

verus! {

/// The days that are left of a window are those until it closes, begun ones
/// counted as whole ones, and it has lapsed once none is left.
pub proof fn law_days_run_until_the_window_closes(
    since: Timestamp,
    days: i32,
    now: Timestamp,
    left: i64,
    expired: bool,
)
    requires
        call_ensures(days_remaining_at, (since, days, now), left),
        call_ensures(is_expired_at, (since, days, now), expired),
    ensures
        days_until_close(left as int, since@, days as int, now@),
        days >= 1 ==> (expired <==> now@ >= since@ + days * 86_400_000_000_000),
        days < 1 ==> expired,
{
}

/// By the clock it is the same.
pub proof fn law_windows_close_by_the_clock(since: Timestamp, days: i32, left: i64, expired: bool)
    requires
        call_ensures(days_remaining, (since, days), left),
        call_ensures(is_expired, (since, days), expired),
    ensures
        exists|now: Timestamp| #[trigger]
            now.given() && days_until_close(left as int, since@, days as int, now@),
        exists|now: Timestamp| #[trigger]
            now.given() && expired == (days < 1 || now@ >= since@ + days * 86_400_000_000_000),
{
    let now = choose|now: Timestamp| #[trigger]
        now.given() && left == crate::routes::passwords::days_left(since@, days as int, now@);
    assert(now.given() && days_until_close(left as int, since@, days as int, now@));
    let then = choose|then: Timestamp| #[trigger]
        then.given() && expired == (crate::routes::passwords::days_left(
            since@,
            days as int,
            then@,
        ) <= 0);
    assert(then.given() && expired == (days < 1 || then@ >= since@ + days
        * 86_400_000_000_000));
}

/// A window is as long as it is asked to be, within a day and a year, and thirty
/// days where nothing is asked.
pub proof fn law_windows_last_a_day_to_a_year(asked: Option<i32>, r: i32)
    requires
        call_ensures(clamp_window, (asked,), r),
    ensures
        asked is None ==> r == 30,
        asked matches Some(days) ==> {
            &&& 1 <= days <= 365 ==> r == days
            &&& days < 1 ==> r == 1
            &&& days > 365 ==> r == 365
        },
{
}

/// A listing asks for the groups of the account, then for the passwords of the
/// groups that came, and keeps what was asked.
pub proof fn law_listing_asks_for_the_passwords_of_the_account(
    params: ListParams,
    session: Session,
    first: ListGroups,
    groups: Vec<Group>,
    second: ListPasswords,
    group: Group,
    row: Password,
)
    requires
        call_ensures(list_handler, (params, &session), first),
        call_ensures(ListGroups::found, (first, groups), second),
    ensures
        first.list.lists(group) <==> group.user_id@ == session.owner(),
        second.list.lists(row) <==> exists|i: int|
            0 <= i < groups@.len() && (#[trigger] groups@[i]).uuid@ == row.group_id@,
        first.params == params,
        second.params == params,
{
    let ids = second.list->Groups_0@;
    if second.list.lists(row) {
        let i = choose|i: int| 0 <= i < ids.len() && (#[trigger] ids[i])@ == row.group_id@;
        assert(groups@[i].uuid@ == row.group_id@);
    }
    if exists|i: int| 0 <= i < groups@.len() && (#[trigger] groups@[i]).uuid@ == row.group_id@ {
        let i = choose|i: int|
            0 <= i < groups@.len() && (#[trigger] groups@[i]).uuid@ == row.group_id@;
        assert(ids[i]@ == row.group_id@);
    }
}

/// The answer to a creation shows the stored row, with the days that are left at
/// that moment.
pub proof fn law_creation_shows_the_days_left(
    step: CreateInsert,
    row: Password,
    session: Session,
    config: Config,
    now: Timestamp,
    r: AppResult<PasswordEntry>,
)
    requires
        call_ensures(CreateInsert::stored_at, (step, &row, &session, &config, now), r),
        r is Ok,
    ensures
        r->Ok_0.uuid@ == row.uuid@,
        r->Ok_0.valid_since_days == row.valid_since_days,
        days_until_close(
            r->Ok_0.expires as int,
            row.valid_since@,
            row.valid_since_days as int,
            now@,
        ),
{
}

/// A moment is some seconds and nanoseconds after the Unix epoch, and gives them
/// back. Of two moments the one with fewer nanoseconds since the epoch comes
/// first, and the days between them are of 86400 seconds each.
pub proof fn law_moments_are_nanoseconds(
    secs: i64,
    nanos: u32,
    made: Option<Timestamp>,
    s: i64,
    n: u32,
    other: Timestamp,
    first: bool,
    days: i64,
)
    requires
        call_ensures(Timestamp::new, (secs, nanos), made),
        made is Some,
        call_ensures(Timestamp::secs, (&made->0,), s),
        call_ensures(Timestamp::nanos, (&made->0,), n),
        call_ensures(Timestamp::before, (&made->0, &other), first),
        other@ <= made->0@ ==> call_ensures(Timestamp::days_since, (&made->0, &other), days),
    ensures
        made->0@ == secs * 1_000_000_000 + nanos,
        nanos < 1_000_000_000,
        s == secs,
        n == nanos,
        first <==> made->0@ < other@,
        other@ <= made->0@ ==> other@ + days * 86_400_000_000_000 <= made->0@ < other@ + (days + 1)
            * 86_400_000_000_000,
{
}

} // verus!
