//! `/pwd/*`: the passwords of an account.

use vstd::prelude::*;

use crate::chance::{drawn_nonce, drawn_uuid, fresh_uuid};
use crate::config::Config;
use crate::crypto::encrypt::{decrypt_db, encrypt_db};
use crate::crypto::keys::{
    decrypt_with_shared_key, encrypt_with_shared_key, is_sealed, opened, seal_failure,
};
use crate::domain::group::{Group, GroupKey, GroupList};
use crate::domain::identity::Identity;
use crate::domain::password::{
    NewPassword, Password, PasswordCommand, PasswordKey, PasswordList, UpdatePassword,
};
use crate::error::{
    bytes_result, length_checked, refused, unauthorized, unit_result, validate_length, AppError,
    AppResult, Failure,
};
use crate::outside::{
    hex_bytes, hex_decode, hex_encode, is_hex, is_uuid_v4, public_key, x25519_value,
    MAX_MESSAGE_LEN,
};
use crate::routes::signin::sealed_text;
use crate::routes::{device_key, device_shared_key, paired, Session};
use crate::text::{law_hex_round_trip, same_text};
use crate::time::{moment_text, Timestamp, NANOS_PER_DAY};

verus! {

/// The longest name of a password, in characters.
pub const MAX_PASSWORD_NAME_LEN: usize = 256;

/// The longest notes on a password, in characters.
pub const MAX_PASSWORD_EXTRA_LEN: usize = 4096;

/// What part of the passwords to list. Whatever is absent has a default.
#[derive(Debug, Default)]
pub struct ListParams {
    pub expired: Option<bool>,
    pub take: Option<i64>,
    pub size: Option<i64>,
}

#[derive(Debug)]
pub struct PasswordEntry {
    pub uuid: String,
    pub pwd: String,
    pub expires: i64,
    pub created_at: String,
    pub updated_at: String,
    pub valid_since_days: i32,
}

#[derive(Debug)]
pub struct PasswordDetail {
    pub uuid: String,
    pub pwd: String,
    pub name: String,
    pub extra: String,
    pub expires: i64,
    pub created_at: String,
    pub updated_at: String,
    pub valid_since_days: i32,
    pub group: GroupInfo,
}

#[derive(Debug)]
pub struct GroupInfo {
    pub name: String,
    pub extra: String,
}

#[derive(Debug)]
pub struct CreatePasswordRequest {
    pub pwd: String,
    pub group_id: String,
    pub extra: Option<String>,
    pub name: Option<String>,
    pub valid_since_days: Option<i32>,
}

#[derive(Debug)]
pub struct UpdatePasswordRequest {
    pub pwd: String,
    pub group_id: String,
    pub extra: Option<String>,
    pub name: Option<String>,
}

// ---------------------------------------------------------------------------
// Between the database and a device
// ---------------------------------------------------------------------------

/// The key of a device and the password that a stored text holds for it.
pub open spec fn outgoing(stored: Seq<char>, device: Identity, secret: Seq<u8>) -> Result<
    (Seq<u8>, Seq<u8>),
    Failure,
> {
    if !is_hex(stored) {
        Err(Failure::Validation("invalid hex"@))
    } else {
        match opened(hex_bytes(stored), secret) {
            Err(e) => Err(e),
            Ok(plaintext) => match device_key(device, secret) {
                Err(e) => Err(e),
                Ok(key) => if plaintext.len() > MAX_MESSAGE_LEN {
                    Err(seal_failure())
                } else {
                    Ok((key, plaintext))
                },
            },
        }
    }
}

/// Whether the holder of a device's private key reads a password in a text,
/// with the public key that the server gave out.
pub open spec fn client_reads(
    text: Seq<char>,
    device: Identity,
    secret: Seq<u8>,
    plaintext: Seq<u8>,
) -> bool {
    forall|client_private: Seq<u8>|
        client_private.len() == 32 && device.client_public_key@ == #[trigger] public_key(
            client_private,
        ) && paired(device, secret) ==> opened(
            hex_bytes(text),
            x25519_value(client_private, device.server_public_key@),
        ) == Ok::<Seq<u8>, Failure>(plaintext)
}

/// Whether the server reads in a text whatever password the holder of a
/// device's private key sealed in it.
pub open spec fn server_reads(
    text: Seq<char>,
    device: Identity,
    secret: Seq<u8>,
    r: Result<Seq<u8>, Failure>,
) -> bool {
    forall|client_private: Seq<u8>, plaintext: Seq<u8>|
        client_private.len() == 32 && device.client_public_key@ == public_key(client_private)
            && paired(device, secret) && is_hex(text) && #[trigger] is_sealed(
            hex_bytes(text),
            x25519_value(client_private, device.server_public_key@),
            plaintext,
        ) && device_key(device, secret) is Ok ==> r == Ok::<Seq<u8>, Failure>(plaintext)
}

/// Reseals a stored password for a device.
pub fn encrypt_for_client(hex_data: &str, identity: &Identity, config: &Config) -> (r: AppResult<
    String,
>)
    ensures
        match r {
            Ok(text) => {
                &&& outgoing(hex_data@, *identity, config.database_encrypt_secret@) is Ok
                &&& sealed_text(
                    text@,
                    outgoing(hex_data@, *identity, config.database_encrypt_secret@)->Ok_0.0,
                    outgoing(hex_data@, *identity, config.database_encrypt_secret@)->Ok_0.1,
                )
                &&& drawn_nonce(hex_bytes(text@).take(12))
                &&& client_reads(
                    text@,
                    *identity,
                    config.database_encrypt_secret@,
                    outgoing(hex_data@, *identity, config.database_encrypt_secret@)->Ok_0.1,
                )
            },
            Err(e) => outgoing(hex_data@, *identity, config.database_encrypt_secret@) == Err::<
                (Seq<u8>, Seq<u8>),
                Failure,
            >(e@),
        },
{
    let data = match hex_decode(hex_data) {
        Some(data) => data,
        None => return Err(AppError::Validation("invalid hex".to_string())),
    };
    let plaintext = match decrypt_db(data.as_slice(), &config.database_encrypt_secret) {
        Ok(plaintext) => plaintext,
        Err(e) => return Err(e),
    };
    let key = match device_shared_key(identity, config) {
        Ok(key) => key,
        Err(e) => return Err(e),
    };
    let sealed = match encrypt_with_shared_key(plaintext.as_slice(), &key) {
        Ok(sealed) => sealed,
        Err(e) => return Err(e),
    };
    proof {
        law_hex_round_trip(sealed@);
    }
    Ok(hex_encode(sealed.as_slice()))
}

/// The password that a device sent, or what is wrong with what it sent.
pub open spec fn incoming(sent: Seq<char>, device: Identity, secret: Seq<u8>) -> Result<
    Seq<u8>,
    Failure,
> {
    if !is_hex(sent) {
        Err(Failure::Validation("invalid hex"@))
    } else {
        match device_key(device, secret) {
            Err(e) => Err(e),
            Ok(key) => opened(hex_bytes(sent), key),
        }
    }
}

/// Opens the password that a device sent.
pub fn decrypt_from_client(hex_data: &str, identity: &Identity, config: &Config) -> (r: AppResult<
    Vec<u8>,
>)
    ensures
        bytes_result(r) == incoming(hex_data@, *identity, config.database_encrypt_secret@),
        server_reads(
            hex_data@,
            *identity,
            config.database_encrypt_secret@,
            incoming(hex_data@, *identity, config.database_encrypt_secret@),
        ),
{
    let sealed = match hex_decode(hex_data) {
        Some(sealed) => sealed,
        None => return Err(AppError::Validation("invalid hex".to_string())),
    };
    let key = match device_shared_key(identity, config) {
        Ok(key) => key,
        Err(e) => return Err(e),
    };
    decrypt_with_shared_key(sealed.as_slice(), &key)
}

/// The password that a device sent for the database, or what is wrong with what
/// it sent.
pub open spec fn received(sent: Seq<char>, device: Identity, secret: Seq<u8>) -> Result<
    Seq<u8>,
    Failure,
> {
    match incoming(sent, device, secret) {
        Err(e) => Err(e),
        Ok(plaintext) => if plaintext.len() > MAX_MESSAGE_LEN {
            Err(seal_failure())
        } else {
            Ok(plaintext)
        },
    }
}

/// Opens the password that a device sent and seals it for the database.
pub fn receive_password(hex_data: &str, identity: &Identity, config: &Config) -> (r: AppResult<
    String,
>)
    ensures
        server_reads(
            hex_data@,
            *identity,
            config.database_encrypt_secret@,
            received(hex_data@, *identity, config.database_encrypt_secret@),
        ),
        match r {
            Ok(text) => {
                &&& received(hex_data@, *identity, config.database_encrypt_secret@) is Ok
                &&& sealed_text(
                    text@,
                    config.database_encrypt_secret@,
                    received(hex_data@, *identity, config.database_encrypt_secret@)->Ok_0,
                )
                &&& drawn_nonce(hex_bytes(text@).take(12))
            },
            Err(e) => received(hex_data@, *identity, config.database_encrypt_secret@) == Err::<
                Seq<u8>,
                Failure,
            >(e@),
        },
{
    let plaintext = match decrypt_from_client(hex_data, identity, config) {
        Ok(plaintext) => plaintext,
        Err(e) => return Err(e),
    };
    let sealed = match encrypt_db(plaintext.as_slice(), &config.database_encrypt_secret) {
        Ok(sealed) => sealed,
        Err(e) => return Err(e),
    };
    proof {
        law_hex_round_trip(sealed@);
    }
    Ok(hex_encode(sealed.as_slice()))
}

// ---------------------------------------------------------------------------
// Windows of validity
// ---------------------------------------------------------------------------

/// How many days are left of a window of some days that opened at a moment.
pub open spec fn days_left(valid_since: int, days: int, now: int) -> int {
    if now < valid_since {
        days
    } else {
        let left = days - (now - valid_since) / (NANOS_PER_DAY as int);
        if left < 0 {
            0
        } else {
            left
        }
    }
}

/// Whether no day is left.
pub open spec fn expired_at(row: Password, now: int) -> bool {
    days_left(row.valid_since@, row.valid_since_days as int, now) <= 0
}

/// Computes how many days are left at a given moment.
pub fn days_remaining_at(valid_since: Timestamp, valid_since_days: i32, now: Timestamp) -> (r: i64)
    ensures
        r == days_left(valid_since@, valid_since_days as int, now@),
{
    if now.before(&valid_since) {
        return valid_since_days as i64;
    }
    let elapsed: i64 = now.days_since(&valid_since);
    let left: i64 = valid_since_days as i64 - elapsed;
    if left < 0 {
        0
    } else {
        left
    }
}

/// Computes how many days are left now.
pub fn days_remaining(valid_since: Timestamp, valid_since_days: i32) -> (r: i64)
    ensures
        exists|now: Timestamp| #[trigger]
            now.given() && r == days_left(valid_since@, valid_since_days as int, now@),
{
    let now = Timestamp::now();
    days_remaining_at(valid_since, valid_since_days, now)
}

/// Tells whether a window has lapsed at a given moment.
pub fn is_expired_at(valid_since: Timestamp, valid_since_days: i32, now: Timestamp) -> (r: bool)
    ensures
        r == (days_left(valid_since@, valid_since_days as int, now@) <= 0),
{
    days_remaining_at(valid_since, valid_since_days, now) <= 0
}

/// Tells whether a window has lapsed by now.
pub fn is_expired(valid_since: Timestamp, valid_since_days: i32) -> (r: bool)
    ensures
        exists|now: Timestamp| #[trigger]
            now.given() && r == (days_left(valid_since@, valid_since_days as int, now@) <= 0),
{
    let now = Timestamp::now();
    is_expired_at(valid_since, valid_since_days, now)
}

/// The length of the window that a request asks for: between one day and a
/// year, thirty days where the request names none.
pub open spec fn window_days(asked: Option<i32>) -> int {
    match asked {
        None => 30,
        Some(days) => if days < 1 {
            1
        } else if days > 365 {
            365
        } else {
            days as int
        },
    }
}

/// Limits the length of a window.
pub fn clamp_window(asked: Option<i32>) -> (r: i32)
    ensures
        r == window_days(asked),
{
    match asked {
        None => 30,
        Some(days) => if days < 1 {
            1
        } else if days > 365 {
            365
        } else {
            days
        },
    }
}

// ---------------------------------------------------------------------------
// Entries
// ---------------------------------------------------------------------------

/// Whether an entry shows a stored password to a device.
pub open spec fn entry_shows(
    entry: PasswordEntry,
    row: Password,
    device: Identity,
    secret: Seq<u8>,
    expires: int,
) -> bool {
    &&& entry.uuid@ == row.uuid@
    &&& outgoing(row.pwd@, device, secret) is Ok
    &&& sealed_text(
        entry.pwd@,
        outgoing(row.pwd@, device, secret)->Ok_0.0,
        outgoing(row.pwd@, device, secret)->Ok_0.1,
    )
    &&& drawn_nonce(hex_bytes(entry.pwd@).take(12))
    &&& client_reads(entry.pwd@, device, secret, outgoing(row.pwd@, device, secret)->Ok_0.1)
    &&& entry.expires == expires
    &&& entry.created_at@ == moment_text(row.created_at@)
    &&& entry.updated_at@ == moment_text(row.updated_at@)
    &&& entry.valid_since_days == row.valid_since_days
}

fn entry_of(row: &Password, expires: i64, device: &Identity, config: &Config) -> (r: AppResult<
    PasswordEntry,
>)
    ensures
        match r {
            Ok(entry) => entry_shows(
                entry,
                *row,
                *device,
                config.database_encrypt_secret@,
                expires as int,
            ),
            Err(e) => outgoing(row.pwd@, *device, config.database_encrypt_secret@) == Err::<
                (Seq<u8>, Seq<u8>),
                Failure,
            >(e@),
        },
{
    let pwd = match encrypt_for_client(row.pwd.as_str(), device, config) {
        Ok(pwd) => pwd,
        Err(e) => return Err(e),
    };
    Ok(
        PasswordEntry {
            uuid: row.uuid.clone(),
            pwd,
            expires,
            created_at: row.created_at.text(),
            updated_at: row.updated_at.text(),
            valid_since_days: row.valid_since_days,
        },
    )
}

// ---------------------------------------------------------------------------
// Listing
// ---------------------------------------------------------------------------

/// The first step of a listing: the groups of the account.
#[derive(Debug)]
pub struct ListGroups {
    pub list: GroupList,
    pub params: ListParams,
}

/// The second step of a listing: the passwords of those groups.
#[derive(Debug)]
pub struct ListPasswords {
    pub list: PasswordList,
    pub params: ListParams,
}

/// Whether expired passwords are asked for.
pub open spec fn wants_expired(params: ListParams) -> bool {
    params.expired == Some(true)
}

/// How many passwords to leave out first.
pub open spec fn offset_of(params: ListParams) -> int {
    match params.take {
        Some(n) => if n < 0 {
            0
        } else {
            n as int
        },
        None => 0,
    }
}

/// How many passwords to list at most.
pub open spec fn size_of(params: ListParams) -> int {
    match params.size {
        Some(n) => if n < 1 {
            1
        } else if n > 200 {
            200
        } else {
            n as int
        },
        None => 50,
    }
}

/// The part of a sequence that leaves some items out first and holds at most
/// some number of them.
pub open spec fn page_of<T>(items: Seq<T>, offset: int, size: int) -> Seq<T> {
    let from = if offset < items.len() {
        offset
    } else {
        items.len() as int
    };
    let to = if from + size < items.len() {
        from + size
    } else {
        items.len() as int
    };
    items.subrange(from, to)
}

/// The passwords that a listing shows at a moment.
pub open spec fn shown(rows: Seq<Password>, params: ListParams, now: int) -> Seq<Password> {
    page_of(
        rows.filter(|row: Password| expired_at(row, now) == wants_expired(params)),
        offset_of(params),
        size_of(params),
    )
}

/// The days left that a listing shows: none for an expired password.
pub open spec fn shown_expiry(row: Password, params: ListParams, now: int) -> int {
    if wants_expired(params) {
        0
    } else {
        days_left(row.valid_since@, row.valid_since_days as int, now)
    }
}

/// Whether a result is what a listing answers at a moment: an entry for every
/// password shown, in order, or the failure of the first one that cannot be
/// read.
pub open spec fn list_result(
    r: AppResult<Vec<PasswordEntry>>,
    rows: Seq<Password>,
    params: ListParams,
    device: Identity,
    secret: Seq<u8>,
    now: int,
) -> bool {
    let page = shown(rows, params, now);
    match r {
        Ok(entries) => {
            &&& entries@.len() == page.len()
            &&& forall|i: int|
                0 <= i < page.len() ==> entry_shows(
                    #[trigger] entries@[i],
                    page[i],
                    device,
                    secret,
                    shown_expiry(page[i], params, now),
                )
        },
        Err(e) => exists|i: int|
            {
                &&& 0 <= i < page.len()
                &&& outgoing((#[trigger] page[i]).pwd@, device, secret) == Err::<
                    (Seq<u8>, Seq<u8>),
                    Failure,
                >(e@)
                &&& forall|j: int|
                    0 <= j < i ==> outgoing((#[trigger] page[j]).pwd@, device, secret) is Ok
            },
    }
}

/// Starts a listing.
pub fn list_handler(params: ListParams, session: &Session) -> (r: ListGroups)
    ensures
        r.list matches GroupList::User(id) && id@ == session.owner(),
        r.params == params,
{
    ListGroups { list: Group::find_by_user(session.user_id().as_str()), params }
}

/// The identifiers of some groups.
pub open spec fn group_ids(groups: Seq<Group>) -> Seq<String> {
    groups.map_values(|g: Group| g.uuid)
}

impl ListGroups {
    /// Asks for the passwords of the groups.
    pub fn found(self, groups: Vec<Group>) -> (r: ListPasswords)
        ensures
            r.list matches PasswordList::Groups(ids) && ids@ == group_ids(groups@),
            r.params == self.params,
    {
        let mut ids: Vec<String> = Vec::new();
        let mut i: usize = 0;
        while i < groups.len()
            invariant
                i <= groups@.len(),
                ids@ == group_ids(groups@).take(i as int),
            decreases groups@.len() - i,
        {
            ids.push(groups[i].uuid.clone());
            assert(group_ids(groups@).take(i + 1) =~= group_ids(groups@).take(i as int).push(
                groups@[i as int].uuid,
            ));
            i += 1;
        }
        assert(group_ids(groups@).take(i as int) =~= group_ids(groups@));
        ListPasswords { list: Password::find_by_groups(ids), params: self.params }
    }
}

/// A page takes another item in where it starts before it and is not full.
proof fn lemma_page_grows<T>(items: Seq<T>, item: T, offset: int, size: int)
    requires
        0 <= offset,
        0 < size,
    ensures
        items.len() < offset ==> page_of(items.push(item), offset, size) == Seq::<T>::empty()
            && page_of(items, offset, size) == Seq::<T>::empty(),
        offset <= items.len() && page_of(items, offset, size).len() < size ==> page_of(
            items.push(item),
            offset,
            size,
        ) == page_of(items, offset, size).push(item),
        offset <= items.len() && page_of(items, offset, size).len() >= size ==> page_of(
            items.push(item),
            offset,
            size,
        ) == page_of(items, offset, size),
{
    if items.len() < offset {
        assert(page_of(items.push(item), offset, size) =~= Seq::<T>::empty());
        assert(page_of(items, offset, size) =~= Seq::<T>::empty());
    } else if page_of(items, offset, size).len() < size {
        assert(page_of(items.push(item), offset, size) =~= page_of(items, offset, size).push(item));
    } else {
        assert(page_of(items.push(item), offset, size) =~= page_of(items, offset, size));
    }
}

/// A page of the first items is the beginning of the page of all of them.
proof fn lemma_page_prefix<T>(items: Seq<T>, more: Seq<T>, offset: int, size: int)
    requires
        0 <= offset,
        0 < size,
        items.len() <= more.len(),
        items == more.take(items.len() as int),
    ensures
        page_of(items, offset, size).len() <= page_of(more, offset, size).len(),
        forall|i: int|
            0 <= i < page_of(items, offset, size).len() ==> #[trigger] page_of(
                items,
                offset,
                size,
            )[i] == page_of(more, offset, size)[i],
{
}

/// Filtering the first items gives the beginning of what filtering all gives.
proof fn lemma_filter_prefix<T>(items: Seq<T>, wanted: spec_fn(T) -> bool, n: int)
    requires
        0 <= n <= items.len(),
    ensures
        items.take(n).filter(wanted).len() <= items.filter(wanted).len(),
        items.take(n).filter(wanted) == items.filter(wanted).take(
            items.take(n).filter(wanted).len() as int,
        ),
    decreases items.len() - n,
{
    reveal(Seq::filter);
    if n < items.len() {
        lemma_filter_prefix(items, wanted, n + 1);
        assert(items.take(n + 1).drop_last() =~= items.take(n));
        let some = items.take(n).filter(wanted);
        let next = items.take(n + 1).filter(wanted);
        assert(some =~= next.take(some.len() as int));
        assert(some =~= items.filter(wanted).take(some.len() as int));
    } else {
        assert(items.take(n) =~= items);
        assert(items.filter(wanted).take(items.filter(wanted).len() as int) =~= items.filter(
            wanted,
        ));
    }
}

impl ListPasswords {
    /// Lists the passwords as they stand at a given moment.
    pub fn page_at(
        self,
        rows: &Vec<Password>,
        session: &Session,
        config: &Config,
        now: Timestamp,
    ) -> (r: AppResult<Vec<PasswordEntry>>)
        ensures
            list_result(
                r,
                rows@,
                self.params,
                session.identity(),
                config.database_encrypt_secret@,
                now@,
            ),
    {
        let expired: bool = match self.params.expired {
            Some(expired) => expired,
            None => false,
        };
        let offset: i64 = match self.params.take {
            Some(n) => if n < 0 {
                0
            } else {
                n
            },
            None => 0,
        };
        let size: usize = match self.params.size {
            Some(n) => if n < 1 {
                1
            } else if n > 200 {
                200
            } else {
                n as usize
            },
            None => 50,
        };
        let ghost wanted = |row: Password| expired_at(row, now@) == wants_expired(self.params);
        let ghost secret = config.database_encrypt_secret@;
        let ghost device = session.identity();
        let ghost all = rows@.filter(wanted);
        let mut passed: i64 = 0;
        let mut entries: Vec<PasswordEntry> = Vec::new();
        let mut i: usize = 0;
        proof {
            reveal(Seq::filter);
            assert(rows@.take(0) =~= Seq::<Password>::empty());
        }
        while i < rows.len()
            invariant
                i <= rows@.len(),
                expired == wants_expired(self.params),
                offset == offset_of(self.params),
                size == size_of(self.params),
                wanted == (|row: Password| expired_at(row, now@) == wants_expired(self.params)),
                secret == config.database_encrypt_secret@,
                device == session.identity(),
                all == rows@.filter(wanted),
                0 <= passed <= offset,
                passed == if rows@.take(i as int).filter(wanted).len() < offset {
                    rows@.take(i as int).filter(wanted).len() as int
                } else {
                    offset as int
                },
                entries@.len() == page_of(
                    rows@.take(i as int).filter(wanted),
                    offset as int,
                    size as int,
                ).len(),
                entries@.len() <= size,
                forall|k: int|
                    #![trigger entries@[k]]
                    0 <= k < entries@.len() ==> entry_shows(
                        entries@[k],
                        page_of(
                            rows@.take(i as int).filter(wanted),
                            offset as int,
                            size as int,
                        )[k],
                        device,
                        secret,
                        shown_expiry(
                            page_of(
                                rows@.take(i as int).filter(wanted),
                                offset as int,
                                size as int,
                            )[k],
                            self.params,
                            now@,
                        ),
                    ),
            decreases rows@.len() - i,
        {
            let row = &rows[i];
            let ghost before = rows@.take(i as int).filter(wanted);
            let ghost after = rows@.take(i + 1).filter(wanted);
            proof {
                reveal(Seq::filter);
                assert(rows@.take(i + 1).drop_last() =~= rows@.take(i as int));
                assert(rows@.take(i + 1).last() == *row);
                lemma_page_grows(before, *row, offset as int, size as int);
                lemma_filter_prefix(rows@, wanted, i + 1);
                lemma_page_prefix(after, all, offset as int, size as int);
            }
            if is_expired_at(row.valid_since, row.valid_since_days, now) == expired {
                assert(after == before.push(*row));
                if passed < offset {
                    passed += 1;
                } else if entries.len() < size {
                    let expires: i64 = if expired {
                        0
                    } else {
                        days_remaining_at(row.valid_since, row.valid_since_days, now)
                    };
                    let ghost at = entries@.len() as int;
                    let ghost page = page_of(after, offset as int, size as int);
                    assert(page == page_of(before, offset as int, size as int).push(*row));
                    assert(page[at] == *row);
                    match entry_of(row, expires, session.device(), config) {
                        Ok(entry) => {
                            entries.push(entry);
                        },
                        Err(e) => {
                            proof {
                                let whole = shown(rows@, self.params, now@);
                                assert(whole == page_of(all, offset as int, size as int));
                                assert(whole[at] == *row);
                                assert forall|j: int| 0 <= j < at implies outgoing(
                                    (#[trigger] whole[j]).pwd@,
                                    device,
                                    secret,
                                ) is Ok by {
                                    assert(page[j] == whole[j]);
                                    assert(entry_shows(
                                        entries@[j],
                                        page[j],
                                        device,
                                        secret,
                                        shown_expiry(page[j], self.params, now@),
                                    ));
                                }
                            }
                            return Err(e);
                        },
                    }
                }
            } else {
                assert(after == before);
            }
            i += 1;
        }
        assert(rows@.take(i as int) =~= rows@);
        Ok(entries)
    }

    /// Lists the passwords as they stand now.
    pub fn found(self, rows: Vec<Password>, session: &Session, config: &Config) -> (r: AppResult<
        Vec<PasswordEntry>,
    >)
        ensures
            exists|now: Timestamp| #[trigger]
                now.given() && list_result(
                    r,
                    rows@,
                    self.params,
                    session.identity(),
                    config.database_encrypt_secret@,
                    now@,
                ),
    {
        let now = Timestamp::now();
        self.page_at(&rows, session, config, now)
    }
}

// ---------------------------------------------------------------------------
// Ownership
// ---------------------------------------------------------------------------

/// Whether a group exists and belongs to an account.
pub open spec fn group_owned(group: Option<Group>, owner: Seq<char>) -> bool {
    match group {
        None => false,
        Some(g) => g.user_id@ == owner,
    }
}

/// Hands a group on if it belongs to an account.
pub fn own_group(group: Option<Group>, owner: &str) -> (r: AppResult<Group>)
    ensures
        match r {
            Ok(g) => group_owned(group, owner@) && group == Some(g),
            Err(e) => !group_owned(group, owner@) && e@ == refused(),
        },
{
    match group {
        Some(g) => if same_text(g.user_id.as_str(), owner) {
            Ok(g)
        } else {
            Err(unauthorized())
        },
        None => Err(unauthorized()),
    }
}

/// What is wrong with the name or the notes that a request gives a password.
pub open spec fn labels_checked(name: Option<String>, extra: Option<String>) -> Result<
    (),
    Failure,
> {
    let name_length = length_checked(
        "password name"@,
        match name {
            Some(v) => v@,
            None => Seq::<char>::empty(),
        },
        MAX_PASSWORD_NAME_LEN as nat,
    );
    match name_length {
        Err(e) => Err(e),
        Ok(_) => match extra {
            None => Ok(()),
            Some(v) => length_checked("password extra"@, v@, MAX_PASSWORD_EXTRA_LEN as nat),
        },
    }
}

fn check_labels(name: &Option<String>, extra: &Option<String>) -> (r: AppResult<()>)
    ensures
        unit_result(r) == labels_checked(*name, *extra),
{
    if let Some(v) = name {
        match validate_length("password name", v.as_str(), MAX_PASSWORD_NAME_LEN) {
            Ok(_) => {},
            Err(e) => return Err(e),
        }
    }
    match extra {
        Some(v) => validate_length("password extra", v.as_str(), MAX_PASSWORD_EXTRA_LEN),
        None => Ok(()),
    }
}

// ---------------------------------------------------------------------------
// Creating
// ---------------------------------------------------------------------------

/// A request to create that keeps to its lengths.
#[derive(Debug)]
pub struct CreateChecked {
    pub request: CreatePasswordRequest,
}

/// The first step of a creation: look the group up.
#[derive(Debug)]
pub struct CreateGroup {
    pub key: GroupKey,
    pub owner: String,
    pub pwd: String,
    pub request: CreatePasswordRequest,
}

/// The second step of a creation: store the password.
#[derive(Debug)]
pub struct CreateInsert {
    pub command: PasswordCommand,
}

/// Checks a request to create a password.
pub fn create_handler(request: CreatePasswordRequest) -> (r: AppResult<CreateChecked>)
    ensures
        match r {
            Ok(step) => labels_checked(request.name, request.extra) is Ok && step.request
                == request,
            Err(e) => labels_checked(request.name, request.extra) == Err::<(), Failure>(e@),
        },
{
    match check_labels(&request.name, &request.extra) {
        Ok(_) => Ok(CreateChecked { request }),
        Err(e) => Err(e),
    }
}

impl CreateChecked {
    /// Opens the password that the device sent and seals it for the database.
    pub fn authorized(self, session: &Session, config: &Config) -> (r: AppResult<CreateGroup>)
        ensures
            server_reads(
                self.request.pwd@,
                session.identity(),
                config.database_encrypt_secret@,
                received(
                    self.request.pwd@,
                    session.identity(),
                    config.database_encrypt_secret@,
                ),
            ),
            match r {
                Ok(step) => {
                    &&& received(
                        self.request.pwd@,
                        session.identity(),
                        config.database_encrypt_secret@,
                    ) is Ok
                    &&& sealed_text(
                        step.pwd@,
                        config.database_encrypt_secret@,
                        received(
                            self.request.pwd@,
                            session.identity(),
                            config.database_encrypt_secret@,
                        )->Ok_0,
                    )
                    &&& drawn_nonce(hex_bytes(step.pwd@).take(12))
                    &&& step.key matches GroupKey::Uuid(id) && id@ == self.request.group_id@
                    &&& step.owner@ == session.owner()
                    &&& step.request == self.request
                },
                Err(e) => received(
                    self.request.pwd@,
                    session.identity(),
                    config.database_encrypt_secret@,
                ) == Err::<Seq<u8>, Failure>(e@),
            },
    {
        let pwd = match receive_password(self.request.pwd.as_str(), session.device(), config) {
            Ok(pwd) => pwd,
            Err(e) => return Err(e),
        };
        Ok(
            CreateGroup {
                key: Group::find_by_uuid(self.request.group_id.as_str()),
                owner: session.user_id().clone(),
                pwd,
                request: self.request,
            },
        )
    }
}

/// Whether a password to be stored is the one that a request asks for.
pub open spec fn new_password(
    new: NewPassword,
    request: CreatePasswordRequest,
    pwd: Seq<char>,
) -> bool {
    &&& new.group_id@ == request.group_id@
    &&& new.pwd@ == pwd
    &&& new.name@ == match request.name {
        Some(v) => v@,
        None => Seq::<char>::empty(),
    }
    &&& new.extra@ == match request.extra {
        Some(v) => v@,
        None => "{}"@,
    }
    &&& new.valid_since_days == window_days(request.valid_since_days)
}

impl CreateGroup {
    /// Makes the password with a given identifier at a given moment, which
    /// opens its window of validity, if the group belongs to the account.
    pub fn found_at(self, group: Option<Group>, uuid: String, now: Timestamp) -> (r: AppResult<
        CreateInsert,
    >)
        ensures
            match r {
                Ok(step) => {
                    &&& group_owned(group, self.owner@)
                    &&& step.command matches PasswordCommand::Insert(new) && new_password(
                        new,
                        self.request,
                        self.pwd@,
                    ) && new.uuid == uuid && new.valid_since == now
                },
                Err(e) => !group_owned(group, self.owner@) && e@ == refused(),
            },
    {
        match own_group(group, self.owner.as_str()) {
            Ok(_) => {},
            Err(e) => return Err(e),
        }
        let new = NewPassword {
            uuid,
            group_id: self.request.group_id,
            pwd: self.pwd,
            name: match self.request.name {
                Some(name) => name,
                None => String::new(),
            },
            extra: match self.request.extra {
                Some(extra) => extra,
                None => "{}".to_string(),
            },
            valid_since_days: clamp_window(self.request.valid_since_days),
            valid_since: now,
        };
        Ok(CreateInsert { command: Password::create(new) })
    }

    /// Makes the password now, if the group belongs to the account.
    pub fn found(self, group: Option<Group>) -> (r: AppResult<CreateInsert>)
        ensures
            match r {
                Ok(step) => {
                    &&& group_owned(group, self.owner@)
                    &&& step.command matches PasswordCommand::Insert(new) && new_password(
                        new,
                        self.request,
                        self.pwd@,
                    ) && is_uuid_v4(new.uuid@) && drawn_uuid(new.uuid@) && new.valid_since.given()
                },
                Err(e) => !group_owned(group, self.owner@) && e@ == refused(),
            },
    {
        self.found_at(group, fresh_uuid(), Timestamp::now())
    }
}

/// Whether a result is what shows a stored password to a device at a moment.
pub open spec fn entry_result(
    r: AppResult<PasswordEntry>,
    row: Password,
    device: Identity,
    secret: Seq<u8>,
    now: int,
) -> bool {
    match r {
        Ok(entry) => entry_shows(
            entry,
            row,
            device,
            secret,
            days_left(row.valid_since@, row.valid_since_days as int, now),
        ),
        Err(e) => outgoing(row.pwd@, device, secret) == Err::<(Seq<u8>, Seq<u8>), Failure>(e@),
    }
}

impl CreateInsert {
    /// Shows the stored password to the device, at a given moment.
    pub fn stored_at(self, row: &Password, session: &Session, config: &Config, now: Timestamp) -> (r:
        AppResult<PasswordEntry>)
        ensures
            entry_result(r, *row, session.identity(), config.database_encrypt_secret@, now@),
    {
        let expires: i64 = days_remaining_at(row.valid_since, row.valid_since_days, now);
        entry_of(row, expires, session.device(), config)
    }

    /// Shows the stored password to the device.
    pub fn stored(self, row: &Password, session: &Session, config: &Config) -> (r: AppResult<
        PasswordEntry,
    >)
        ensures
            exists|now: Timestamp| #[trigger]
                now.given() && entry_result(
                    r,
                    *row,
                    session.identity(),
                    config.database_encrypt_secret@,
                    now@,
                ),
    {
        let now = Timestamp::now();
        self.stored_at(row, session, config, now)
    }
}

// ---------------------------------------------------------------------------
// Updating
// ---------------------------------------------------------------------------

/// A request to update that keeps to its lengths.
#[derive(Debug)]
pub struct UpdateChecked {
    pub uuid: String,
    pub request: UpdatePasswordRequest,
}

/// The first step of an update: look the password up.
#[derive(Debug)]
pub struct UpdateLookup {
    pub key: PasswordKey,
    pub owner: String,
    pub uuid: String,
    pub request: UpdatePasswordRequest,
}

/// The second step of an update: look the group of the password up.
#[derive(Debug)]
pub struct UpdateSource {
    pub key: GroupKey,
    pub owner: String,
    pub uuid: String,
    pub request: UpdatePasswordRequest,
}

/// The third step of an update: look the group up that the password goes to.
#[derive(Debug)]
pub struct UpdateTarget {
    pub key: GroupKey,
    pub owner: String,
    pub uuid: String,
    pub request: UpdatePasswordRequest,
}

/// The last step of an update: store the changes.
#[derive(Debug)]
pub struct UpdateWrite {
    pub command: PasswordCommand,
}

/// Checks a request to update a password.
pub fn update_handler(uuid: String, request: UpdatePasswordRequest) -> (r: AppResult<UpdateChecked>)
    ensures
        match r {
            Ok(step) => labels_checked(request.name, request.extra) is Ok && step.request
                == request && step.uuid == uuid,
            Err(e) => labels_checked(request.name, request.extra) == Err::<(), Failure>(e@),
        },
{
    match check_labels(&request.name, &request.extra) {
        Ok(_) => Ok(UpdateChecked { uuid, request }),
        Err(e) => Err(e),
    }
}

impl UpdateChecked {
    /// Asks for the password.
    pub fn authorized(self, session: &Session) -> (r: UpdateLookup)
        ensures
            r.key matches PasswordKey::Uuid(id) && id@ == self.uuid@,
            r.owner@ == session.owner(),
            r.uuid == self.uuid,
            r.request == self.request,
    {
        UpdateLookup {
            key: Password::find_by_uuid(self.uuid.as_str()),
            owner: session.user_id().clone(),
            uuid: self.uuid,
            request: self.request,
        }
    }
}

impl UpdateLookup {
    /// Asks for the group that the password is in.
    pub fn found(self, existing: Option<Password>) -> (r: AppResult<UpdateSource>)
        ensures
            match r {
                Ok(step) => {
                    &&& existing is Some
                    &&& step.key matches GroupKey::Uuid(id) && id@ == existing->0.group_id@
                    &&& step.owner == self.owner
                    &&& step.uuid == self.uuid
                    &&& step.request == self.request
                },
                Err(e) => existing is None && e@ == refused(),
            },
    {
        match existing {
            Some(row) => Ok(
                UpdateSource {
                    key: Group::find_by_uuid(row.group_id.as_str()),
                    owner: self.owner,
                    uuid: self.uuid,
                    request: self.request,
                },
            ),
            None => Err(unauthorized()),
        }
    }
}

impl UpdateSource {
    /// Asks for the group that the password goes to, if the one that it is in
    /// belongs to the account.
    pub fn found(self, group: Option<Group>) -> (r: AppResult<UpdateTarget>)
        ensures
            match r {
                Ok(step) => {
                    &&& group_owned(group, self.owner@)
                    &&& step.key matches GroupKey::Uuid(id) && id@ == self.request.group_id@
                    &&& step.owner == self.owner
                    &&& step.uuid == self.uuid
                    &&& step.request == self.request
                },
                Err(e) => !group_owned(group, self.owner@) && e@ == refused(),
            },
    {
        match own_group(group, self.owner.as_str()) {
            Ok(_) => {},
            Err(e) => return Err(e),
        }
        Ok(
            UpdateTarget {
                key: Group::find_by_uuid(self.request.group_id.as_str()),
                owner: self.owner,
                uuid: self.uuid,
                request: self.request,
            },
        )
    }
}

/// What is wrong with an update once the group that the password goes to is
/// known.
pub open spec fn update_accepted(
    target: Option<Group>,
    owner: Seq<char>,
    pwd: Seq<char>,
    device: Identity,
    secret: Seq<u8>,
) -> Result<Seq<u8>, Failure> {
    if !group_owned(target, owner) {
        Err(refused())
    } else {
        received(pwd, device, secret)
    }
}

/// Whether a command writes what a request asks for, with the password sealed
/// for the database, and opens the window of validity anew.
pub open spec fn rewrites(
    command: PasswordCommand,
    password: Seq<char>,
    request: UpdatePasswordRequest,
    secret: Seq<u8>,
    plaintext: Seq<u8>,
) -> bool {
    command matches PasswordCommand::Update { uuid, changes, updated_at, valid_since } && {
        &&& uuid@ == password
        &&& changes.pwd is Some
        &&& sealed_text(changes.pwd->0@, secret, plaintext)
        &&& drawn_nonce(hex_bytes(changes.pwd->0@).take(12))
        &&& changes.group_id == Some(request.group_id)
        &&& changes.name == request.name
        &&& changes.extra == request.extra
        &&& changes.valid_since_days is None
        &&& updated_at == valid_since
    }
}

impl UpdateTarget {
    /// Writes the changes at a given moment, if the group that the password
    /// goes to belongs to the account.
    pub fn found_at(
        self,
        target: Option<Group>,
        session: &Session,
        config: &Config,
        now: Timestamp,
    ) -> (r: AppResult<UpdateWrite>)
        ensures
            group_owned(target, self.owner@) ==> server_reads(
                self.request.pwd@,
                session.identity(),
                config.database_encrypt_secret@,
                received(
                    self.request.pwd@,
                    session.identity(),
                    config.database_encrypt_secret@,
                ),
            ),
            match r {
                Ok(step) => {
                    &&& update_accepted(
                        target,
                        self.owner@,
                        self.request.pwd@,
                        session.identity(),
                        config.database_encrypt_secret@,
                    ) is Ok
                    &&& rewrites(
                        step.command,
                        self.uuid@,
                        self.request,
                        config.database_encrypt_secret@,
                        update_accepted(
                            target,
                            self.owner@,
                            self.request.pwd@,
                            session.identity(),
                            config.database_encrypt_secret@,
                        )->Ok_0,
                    )
                    &&& step.command->Update_updated_at == now
                },
                Err(e) => update_accepted(
                    target,
                    self.owner@,
                    self.request.pwd@,
                    session.identity(),
                    config.database_encrypt_secret@,
                ) == Err::<Seq<u8>, Failure>(e@),
            },
    {
        match own_group(target, self.owner.as_str()) {
            Ok(_) => {},
            Err(e) => return Err(e),
        }
        let pwd = match receive_password(self.request.pwd.as_str(), session.device(), config) {
            Ok(pwd) => pwd,
            Err(e) => return Err(e),
        };
        let changes = UpdatePassword {
            pwd: Some(pwd),
            group_id: Some(self.request.group_id),
            name: self.request.name,
            extra: self.request.extra,
            valid_since_days: None,
        };
        Ok(UpdateWrite { command: Password::update_at(self.uuid.as_str(), changes, now) })
    }

    /// Writes the changes now, if the group that the password goes to belongs
    /// to the account.
    pub fn found(self, target: Option<Group>, session: &Session, config: &Config) -> (r: AppResult<
        UpdateWrite,
    >)
        ensures
            group_owned(target, self.owner@) ==> server_reads(
                self.request.pwd@,
                session.identity(),
                config.database_encrypt_secret@,
                received(
                    self.request.pwd@,
                    session.identity(),
                    config.database_encrypt_secret@,
                ),
            ),
            match r {
                Ok(step) => {
                    &&& update_accepted(
                        target,
                        self.owner@,
                        self.request.pwd@,
                        session.identity(),
                        config.database_encrypt_secret@,
                    ) is Ok
                    &&& rewrites(
                        step.command,
                        self.uuid@,
                        self.request,
                        config.database_encrypt_secret@,
                        update_accepted(
                            target,
                            self.owner@,
                            self.request.pwd@,
                            session.identity(),
                            config.database_encrypt_secret@,
                        )->Ok_0,
                    )
                    &&& step.command->Update_updated_at.given()
                },
                Err(e) => update_accepted(
                    target,
                    self.owner@,
                    self.request.pwd@,
                    session.identity(),
                    config.database_encrypt_secret@,
                ) == Err::<Seq<u8>, Failure>(e@),
            },
    {
        self.found_at(target, session, config, Timestamp::now())
    }
}

// ---------------------------------------------------------------------------
// Reading one
// ---------------------------------------------------------------------------

/// The first step of a reading: look the password up.
#[derive(Debug)]
pub struct GetLookup {
    pub key: PasswordKey,
    pub owner: String,
}

/// The second step of a reading: look the group of the password up.
#[derive(Debug)]
pub struct GetGroup {
    pub key: GroupKey,
    pub owner: String,
    pub row: Password,
}

/// Starts to read a password.
pub fn get_handler(uuid: &str, session: &Session) -> (r: GetLookup)
    ensures
        r.key matches PasswordKey::Uuid(id) && id@ == uuid@,
        r.owner@ == session.owner(),
{
    GetLookup { key: Password::find_by_uuid(uuid), owner: session.user_id().clone() }
}

impl GetLookup {
    /// Asks for the group that the password is in.
    pub fn found(self, row: Option<Password>) -> (r: AppResult<GetGroup>)
        ensures
            match r {
                Ok(step) => {
                    &&& row == Some(step.row)
                    &&& step.key matches GroupKey::Uuid(id) && id@ == step.row.group_id@
                    &&& step.owner == self.owner
                },
                Err(e) => row is None && e@ == refused(),
            },
    {
        match row {
            Some(row) => Ok(
                GetGroup {
                    key: Group::find_by_uuid(row.group_id.as_str()),
                    owner: self.owner,
                    row,
                },
            ),
            None => Err(unauthorized()),
        }
    }
}

/// Whether a detail shows a stored password and its group to a device at a
/// moment.
pub open spec fn detail_shows(
    detail: PasswordDetail,
    row: Password,
    group: Group,
    device: Identity,
    secret: Seq<u8>,
    now: int,
) -> bool {
    &&& detail.uuid@ == row.uuid@
    &&& outgoing(row.pwd@, device, secret) is Ok
    &&& sealed_text(
        detail.pwd@,
        outgoing(row.pwd@, device, secret)->Ok_0.0,
        outgoing(row.pwd@, device, secret)->Ok_0.1,
    )
    &&& drawn_nonce(hex_bytes(detail.pwd@).take(12))
    &&& client_reads(detail.pwd@, device, secret, outgoing(row.pwd@, device, secret)->Ok_0.1)
    &&& detail.name@ == row.name@
    &&& detail.extra@ == row.extra@
    &&& detail.expires == days_left(row.valid_since@, row.valid_since_days as int, now)
    &&& detail.created_at@ == moment_text(row.created_at@)
    &&& detail.updated_at@ == moment_text(row.updated_at@)
    &&& detail.valid_since_days == row.valid_since_days
    &&& detail.group.name@ == group.name@
    &&& detail.group.extra@ == group.extra@
}

/// Whether a result is what shows a stored password to an account at a moment:
/// only what is in a group of the account is shown.
pub open spec fn detail_result(
    r: AppResult<PasswordDetail>,
    row: Password,
    group: Option<Group>,
    owner: Seq<char>,
    device: Identity,
    secret: Seq<u8>,
    now: int,
) -> bool {
    match r {
        Ok(detail) => group_owned(group, owner) && detail_shows(
            detail,
            row,
            group->0,
            device,
            secret,
            now,
        ),
        Err(e) => if !group_owned(group, owner) {
            e@ == refused()
        } else {
            outgoing(row.pwd@, device, secret) == Err::<(Seq<u8>, Seq<u8>), Failure>(e@)
        },
    }
}

impl GetGroup {
    /// Shows the password as it stands at a given moment, if its group belongs
    /// to the account.
    pub fn found_at(
        self,
        group: Option<Group>,
        session: &Session,
        config: &Config,
        now: Timestamp,
    ) -> (r: AppResult<PasswordDetail>)
        ensures
            detail_result(
                r,
                self.row,
                group,
                self.owner@,
                session.identity(),
                config.database_encrypt_secret@,
                now@,
            ),
    {
        let group = match own_group(group, self.owner.as_str()) {
            Ok(group) => group,
            Err(e) => return Err(e),
        };
        let row = self.row;
        let pwd = match encrypt_for_client(row.pwd.as_str(), session.device(), config) {
            Ok(pwd) => pwd,
            Err(e) => return Err(e),
        };
        Ok(
            PasswordDetail {
                uuid: row.uuid,
                pwd,
                name: row.name,
                extra: row.extra,
                expires: days_remaining_at(row.valid_since, row.valid_since_days, now),
                created_at: row.created_at.text(),
                updated_at: row.updated_at.text(),
                valid_since_days: row.valid_since_days,
                group: GroupInfo { name: group.name, extra: group.extra },
            },
        )
    }

    /// Shows the password as it stands now, if its group belongs to the
    /// account.
    pub fn found(self, group: Option<Group>, session: &Session, config: &Config) -> (r: AppResult<
        PasswordDetail,
    >)
        ensures
            exists|now: Timestamp| #[trigger]
                now.given() && detail_result(
                    r,
                    self.row,
                    group,
                    self.owner@,
                    session.identity(),
                    config.database_encrypt_secret@,
                    now@,
                ),
    {
        let now = Timestamp::now();
        self.found_at(group, session, config, now)
    }
}

} // verus!
