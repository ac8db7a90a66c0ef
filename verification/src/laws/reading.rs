//! What reading one password answers.

use vstd::prelude::*;

use crate::config::Config;
use crate::domain::group::Group;
use crate::domain::one_of;
use crate::domain::password::Password;
use crate::error::{AppResult, Failure};
use crate::laws::listing::{asked_for, law_page_shows_the_passwords_in_order};
use crate::laws::plain::{
    days_until_close, key_between, lapsed, lemma_days, lemma_key, lemma_plain, plain_in,
};
use crate::outside::{datetime_text, datetime_utc_text, hex_bytes};
use crate::routes::passwords::{
    detail_result, get_handler, GetGroup, GetLookup, ListPasswords, PasswordDetail, PasswordEntry,
};
use crate::routes::Session;
use crate::time::{moment_text, Timestamp};

verus! {

/// A password is shown to the owner of its group, with its name and its notes,
/// those of the group, its times, and the days until its window closes.
pub proof fn law_detail_shows_the_password(
    step: GetGroup,
    group: Option<Group>,
    session: Session,
    config: Config,
    now: Timestamp,
    r: AppResult<PasswordDetail>,
)
    requires
        call_ensures(GetGroup::found_at, (step, group, &session, &config, now), r),
        r is Ok,
    ensures
        group is Some,
        group->0.user_id@ == step.owner@,
        r->Ok_0.uuid@ == step.row.uuid@,
        r->Ok_0.name@ == step.row.name@,
        r->Ok_0.extra@ == step.row.extra@,
        r->Ok_0.created_at@ == moment_text(step.row.created_at@),
        r->Ok_0.updated_at@ == moment_text(step.row.updated_at@),
        r->Ok_0.valid_since_days == step.row.valid_since_days,
        r->Ok_0.group.name@ == group->0.name@,
        r->Ok_0.group.extra@ == group->0.extra@,
        days_until_close(
            r->Ok_0.expires as int,
            step.row.valid_since@,
            step.row.valid_since_days as int,
            now@,
        ),
        lapsed(step.row, now@) && step.row.valid_since@ <= now@ ==> r->Ok_0.expires == 0,
        !lapsed(step.row, now@) ==> r->Ok_0.expires > 0,
{
    lemma_days(step.row, now@);
}

/// What is shown of a password opens, under the key of the asking device, to
/// what the database holds. Where both are stored as they should be, the owner
/// of the group is shown the password, and nobody else is.
pub proof fn law_detail_opens_for_the_device(
    step: GetGroup,
    group: Option<Group>,
    session: Session,
    config: Config,
    now: Timestamp,
    r: AppResult<PasswordDetail>,
)
    requires
        call_ensures(GetGroup::found_at, (step, group, &session, &config, now), r),
        key_between(session.identity(), config.database_encrypt_secret@) is Some,
        plain_in(step.row.pwd@, config.database_encrypt_secret@) is Some,
        plain_in(step.row.pwd@, config.database_encrypt_secret@)->0.len() <= 68_719_476_736,
    ensures
        r is Ok <==> group is Some && group->0.user_id@ == step.owner@,
        r is Ok ==> plain_in(
            r->Ok_0.pwd@,
            key_between(session.identity(), config.database_encrypt_secret@)->0,
        ) == plain_in(step.row.pwd@, config.database_encrypt_secret@),
        r matches Err(e) ==> e@ == Failure::Unauthorized("unauthorized"@),
{
    let secret = config.database_encrypt_secret@;
    lemma_key(session.identity(), secret);
    lemma_plain(hex_bytes(step.row.pwd@), secret);
    if r is Ok {
        lemma_plain(hex_bytes(r->Ok_0.pwd@), key_between(session.identity(), secret)->0);
    }
}

/// A password is read at a moment that the clock gives: the days shown are those
/// that are left then, whatever was left when it was stored.
pub proof fn law_reading_goes_by_the_clock(
    step: GetGroup,
    group: Option<Group>,
    session: Session,
    config: Config,
    r: AppResult<PasswordDetail>,
)
    requires
        call_ensures(GetGroup::found, (step, group, &session, &config), r),
        r is Ok,
    ensures
        exists|now: Timestamp|
            {
                &&& #[trigger] now.given()
                &&& days_until_close(
                    r->Ok_0.expires as int,
                    step.row.valid_since@,
                    step.row.valid_since_days as int,
                    now@,
                )
                &&& lapsed(step.row, now@) && step.row.valid_since@ <= now@ ==> r->Ok_0.expires
                    == 0
            },
{
    let now = choose|now: Timestamp| #[trigger]
        now.given() && detail_result(
            r,
            step.row,
            group,
            step.owner@,
            session.identity(),
            config.database_encrypt_secret@,
            now@,
        );
    lemma_days(step.row, now@);
}

/// At one moment a listing and a reading show the same days for a password: none
/// where it is in the list of the expired ones.
pub proof fn law_listing_and_reading_agree(
    list: ListPasswords,
    rows: Vec<Password>,
    entries: AppResult<Vec<PasswordEntry>>,
    i: int,
    step: GetGroup,
    group: Option<Group>,
    detail: AppResult<PasswordDetail>,
    session: Session,
    config: Config,
    now: Timestamp,
)
    requires
        call_ensures(ListPasswords::page_at, (list, &rows, &session, &config, now), entries),
        entries is Ok,
        0 <= i < entries->Ok_0@.len(),
        list.params.take is None,
        step.row == asked_for(rows@, list.params.expired, now@)[i],
        step.row.valid_since_days >= 1,
        call_ensures(GetGroup::found_at, (step, group, &session, &config, now), detail),
        detail is Ok,
    ensures
        detail->Ok_0.uuid@ == entries->Ok_0@[i].uuid@,
        detail->Ok_0.expires == entries->Ok_0@[i].expires,
        list.params.expired == Some(true) ==> detail->Ok_0.expires == 0,
{
    law_page_shows_the_passwords_in_order(
        list,
        rows,
        session,
        config,
        now,
        entries,
        i,
        step.row,
    );
    lemma_days(step.row, now@);
    let wanted = |row: Password| lapsed(row, now@) == (list.params.expired == Some(true));
    crate::laws::listing::lemma_page_fits(list, rows, session, config, now, entries);
    rows@.lemma_filter_pred(wanted, i);
}

/// A reading looks for the password of the identifier in the request and for the
/// group that this password is in, and shows it to the account of the session
/// only.
pub proof fn law_reading_finds_the_password_asked_for(
    uuid: &str,
    session: Session,
    config: Config,
    now: Timestamp,
    passwords: Seq<Password>,
    groups: Seq<Group>,
    first: GetLookup,
    row: Option<Password>,
    second: AppResult<GetGroup>,
    group: Option<Group>,
    r: AppResult<PasswordDetail>,
)
    requires
        call_ensures(get_handler, (uuid, &session), first),
        one_of(passwords, |p: Password| first.key.finds(p), row),
        call_ensures(GetLookup::found, (first, row), second),
        second is Ok ==> {
            &&& one_of(groups, |g: Group| second->Ok_0.key.finds(g), group)
            &&& call_ensures(GetGroup::found_at, (second->Ok_0, group, &session, &config, now), r)
        },
    ensures
        second is Err <==> forall|p: Password| #[trigger]
            passwords.contains(p) ==> p.uuid@ != uuid@,
        second matches Err(e) ==> e@ == Failure::Unauthorized("unauthorized"@),
        second is Ok && r is Ok ==> {
            &&& row is Some
            &&& passwords.contains(row->0)
            &&& row->0.uuid@ == uuid@
            &&& group is Some
            &&& groups.contains(group->0)
            &&& group->0.uuid@ == row->0.group_id@
            &&& group->0.user_id@ == session.owner()
            &&& r->Ok_0.uuid@ == uuid@
            &&& r->Ok_0.name@ == row->0.name@
        },
{
    let wanted = |p: Password| first.key.finds(p);
    if row is Some {
        assert(wanted(row->0));
        if second is Ok && r is Ok {
            let of = |g: Group| second->Ok_0.key.finds(g);
            law_detail_shows_the_password(second->Ok_0, group, session, config, now, r);
            assert(of(group->0));
        }
    } else {
        assert forall|p: Password| #[trigger] passwords.contains(p) implies p.uuid@ != uuid@ by {
            assert(!wanted(p));
        }
    }
}

/// A moment is written as the seconds and the nanoseconds that it was made of.
pub proof fn law_moments_are_written_as_they_were_made(
    secs: i64,
    nanos: u32,
    made: Option<Timestamp>,
    text: String,
    utc: String,
)
    requires
        call_ensures(Timestamp::new, (secs, nanos), made),
        made is Some,
        call_ensures(Timestamp::text, (&made->0,), text),
        call_ensures(Timestamp::utc_text, (&made->0,), utc),
    ensures
        text@ == datetime_text(secs, nanos),
        utc@ == datetime_utc_text(secs, nanos),
{
    let moment = made->0@;
    assert(moment == secs * 1_000_000_000 + nanos);
    assert(moment / 1_000_000_000 == secs);
    assert(moment % 1_000_000_000 == nanos);
}

} // verus!
