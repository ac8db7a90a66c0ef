//! What a listing of passwords answers, in terms of the request.

use vstd::prelude::*;

use crate::config::Config;
use crate::domain::password::Password;
use crate::error::AppResult;
use crate::laws::plain::{
    days_until_close, key_between, lapsed, lemma_days, lemma_key, lemma_plain, plain_in,
};
use crate::outside::hex_bytes;
use crate::routes::passwords::{
    entry_shows, expired_at, list_result, outgoing, shown, shown_expiry, wants_expired,
    ListParams, ListPasswords, PasswordEntry,
};
use crate::routes::Session;
use crate::time::{moment_text, Timestamp};

verus! {

/// The passwords that a request is about: those that have lapsed where it asks
/// for expired ones, and the others where it does not.
pub open spec fn asked_for(rows: Seq<Password>, expired: Option<bool>, now: int) -> Seq<Password> {
    rows.filter(|row: Password| lapsed(row, now) == (expired == Some(true)))
}

proof fn lemma_asked_for(step: ListPasswords, rows: Seq<Password>, now: int)
    ensures
        rows.filter(|row: Password| expired_at(row, now) == wants_expired(step.params))
            == asked_for(rows, step.params.expired, now),
{
    let f = |row: Password| expired_at(row, now) == wants_expired(step.params);
    let g = |row: Password| lapsed(row, now) == (step.params.expired == Some(true));
    assert forall|row: Password| #[trigger] f(row) == g(row) by {
        lemma_days(row, now);
    }
    assert(f =~= g);
}

/// Whether a listing has as many entries as the request asks for, where there
/// are as many behind its offset, and all that there are where there are fewer.
/// A size from one to two hundred is taken as it is, fifty stands in for none.
pub open spec fn page_filled(params: ListParams, count: int, got: int) -> bool {
    let offset = match params.take {
        Some(n) => if n > 0 {
            n as int
        } else {
            0
        },
        None => 0,
    };
    let left = if count > offset {
        count - offset
    } else {
        0
    };
    match params.size {
        Some(n) => {
            &&& 1 <= n <= 200 && left >= n ==> got == n
            &&& 1 <= n <= 200 && left < n ==> got == left
            &&& n < 1 && left >= 1 ==> got == 1
            &&& n > 200 && left >= 200 ==> got == 200
            &&& n > 200 && left < 200 ==> got == left
            &&& left == 0 ==> got == 0
        },
        None => {
            &&& left >= 50 ==> got == 50
            &&& left < 50 ==> got == left
        },
    }
}

/// A listing has as many entries as the request asks for, as far as there are
/// passwords of the kind that it asks for.
pub proof fn law_page_has_the_size_asked_for(
    step: ListPasswords,
    rows: Vec<Password>,
    session: Session,
    config: Config,
    now: Timestamp,
    r: AppResult<Vec<PasswordEntry>>,
)
    requires
        call_ensures(ListPasswords::page_at, (step, &rows, &session, &config, now), r),
        r is Ok,
    ensures
        page_filled(
            step.params,
            asked_for(rows@, step.params.expired, now@).len() as int,
            r->Ok_0@.len() as int,
        ),
{
    lemma_asked_for(step, rows@, now@);
}

/// No listing has more entries than there are passwords behind its offset.
pub proof fn lemma_page_fits(
    step: ListPasswords,
    rows: Vec<Password>,
    session: Session,
    config: Config,
    now: Timestamp,
    r: AppResult<Vec<PasswordEntry>>,
)
    requires
        call_ensures(ListPasswords::page_at, (step, &rows, &session, &config, now), r),
        r is Ok,
    ensures
        r->Ok_0@.len() <= asked_for(rows@, step.params.expired, now@).len(),
{
    lemma_asked_for(step, rows@, now@);
}

/// The entries of a listing are, in order, those of the passwords behind the
/// offset, each with its own identifier, times and length of validity, and with
/// the days until it closes; an expired one has none left.
pub proof fn law_page_shows_the_passwords_in_order(
    step: ListPasswords,
    rows: Vec<Password>,
    session: Session,
    config: Config,
    now: Timestamp,
    r: AppResult<Vec<PasswordEntry>>,
    i: int,
    row: Password,
)
    requires
        call_ensures(ListPasswords::page_at, (step, &rows, &session, &config, now), r),
        r is Ok,
        0 <= i < r->Ok_0@.len(),
        step.params.take is None || step.params.take->0 <= 0 ==> row == asked_for(
            rows@,
            step.params.expired,
            now@,
        )[i],
        step.params.take is Some && step.params.take->0 > 0 ==> row == asked_for(
            rows@,
            step.params.expired,
            now@,
        )[step.params.take->0 + i],
    ensures
        r->Ok_0@[i].uuid@ == row.uuid@,
        r->Ok_0@[i].created_at@ == moment_text(row.created_at@),
        r->Ok_0@[i].updated_at@ == moment_text(row.updated_at@),
        r->Ok_0@[i].valid_since_days == row.valid_since_days,
        step.params.expired == Some(true) ==> r->Ok_0@[i].expires == 0,
        step.params.expired != Some(true) ==> r->Ok_0@[i].expires > 0 && days_until_close(
            r->Ok_0@[i].expires as int,
            row.valid_since@,
            row.valid_since_days as int,
            now@,
        ),
{
    lemma_asked_for(step, rows@, now@);
    let page = shown(rows@, step.params, now@);
    let wanted = |row: Password| expired_at(row, now@) == wants_expired(step.params);
    assert(page[i] == row);
    assert(entry_shows(
        r->Ok_0@[i],
        page[i],
        session.identity(),
        config.database_encrypt_secret@,
        shown_expiry(page[i], step.params, now@),
    ));
    lemma_days(row, now@);
    let some = rows@.filter(wanted);
    let k = if step.params.take is Some && step.params.take->0 > 0 {
        step.params.take->0 + i
    } else {
        i
    };
    rows@.lemma_filter_pred(wanted, k);
}

/// What a listing shows of a password opens, under the key of the asking device,
/// to what the database holds of it. Where the device and all passwords are
/// stored as they should be, a listing succeeds.
pub proof fn law_page_opens_for_the_device(
    step: ListPasswords,
    rows: Vec<Password>,
    session: Session,
    config: Config,
    now: Timestamp,
    r: AppResult<Vec<PasswordEntry>>,
    at: int,
)
    requires
        call_ensures(ListPasswords::page_at, (step, &rows, &session, &config, now), r),
        key_between(session.identity(), config.database_encrypt_secret@) is Some,
        forall|i: int|
            0 <= i < rows@.len() ==> {
                &&& plain_in((#[trigger] rows@[i]).pwd@, config.database_encrypt_secret@) is Some
                &&& plain_in(rows@[i].pwd@, config.database_encrypt_secret@)->0.len()
                    <= 68_719_476_736
            },
    ensures
        r is Ok,
        0 <= at < r->Ok_0@.len() ==> exists|row: Password| #[trigger]
            rows@.contains(row) && row.uuid@ == r->Ok_0@[at].uuid@ && plain_in(
                r->Ok_0@[at].pwd@,
                key_between(session.identity(), config.database_encrypt_secret@)->0,
            ) == plain_in(row.pwd@, config.database_encrypt_secret@),
{
    let secret = config.database_encrypt_secret@;
    let device = session.identity();
    let page = shown(rows@, step.params, now@);
    let wanted = |row: Password| expired_at(row, now@) == wants_expired(step.params);
    lemma_key(device, secret);
    assert forall|i: int| 0 <= i < page.len() implies {
        &&& rows@.contains(#[trigger] page[i])
        &&& outgoing(page[i].pwd@, device, secret) is Ok
        &&& Some(outgoing(page[i].pwd@, device, secret)->Ok_0.1) == plain_in(page[i].pwd@, secret)
        &&& Some(outgoing(page[i].pwd@, device, secret)->Ok_0.0) == key_between(device, secret)
    } by {
        assert(rows@.filter(wanted).contains(page[i]));
        rows@.lemma_filter_contains_rev(wanted, page[i]);
        let k = choose|k: int| 0 <= k < rows@.len() && rows@[k] == page[i];
        assert(plain_in(rows@[k].pwd@, secret) is Some);
        lemma_plain(hex_bytes(page[i].pwd@), secret);
    }
    if r is Ok && 0 <= at < r->Ok_0@.len() {
        assert(entry_shows(
            r->Ok_0@[at],
            page[at],
            device,
            secret,
            shown_expiry(page[at], step.params, now@),
        ));
        assert(rows@.contains(page[at]));
        lemma_plain(hex_bytes(r->Ok_0@[at].pwd@), key_between(device, secret)->0);
    }
}

/// A listing is made at a moment that the clock gives: it holds as many entries
/// as are asked for of the passwords that have lapsed then, or have not, each
/// with the days that are left then.
pub proof fn law_listing_goes_by_the_clock(
    step: ListPasswords,
    rows: Vec<Password>,
    session: Session,
    config: Config,
    r: AppResult<Vec<PasswordEntry>>,
)
    requires
        call_ensures(ListPasswords::found, (step, rows, &session, &config), r),
        r is Ok,
    ensures
        exists|now: Timestamp|
            {
                let asked = asked_for(rows@, step.params.expired, now@);
                &&& #[trigger] now.given()
                &&& page_filled(step.params, asked.len() as int, r->Ok_0@.len() as int)
                &&& step.params.take is None && r->Ok_0@.len() > 0 ==> {
                    &&& r->Ok_0@[0].uuid@ == asked[0].uuid@
                    &&& step.params.expired != Some(true) ==> days_until_close(
                        r->Ok_0@[0].expires as int,
                        asked[0].valid_since@,
                        asked[0].valid_since_days as int,
                        now@,
                    )
                }
            },
{
    let now = choose|now: Timestamp| #[trigger]
        now.given() && list_result(
            r,
            rows@,
            step.params,
            session.identity(),
            config.database_encrypt_secret@,
            now@,
        );
    lemma_asked_for(step, rows@, now@);
    if r->Ok_0@.len() > 0 {
        let first = shown(rows@, step.params, now@)[0];
        assert(entry_shows(
            r->Ok_0@[0],
            first,
            session.identity(),
            config.database_encrypt_secret@,
            shown_expiry(first, step.params, now@),
        ));
        lemma_days(first, now@);
    }
}

} // verus!
