//! When a request is taken for an account, and when it is not.

use vstd::prelude::*;

use crate::crypto::token_digest;
use crate::domain::identity::{Identity, IdentityCommand, IdentityKey};
use crate::domain::user::{User, UserCommand, UserKey};
use crate::error::{refused, Failure};
use crate::laws::{accounts_distinct, answers_account, answers_device, Tables};
use crate::outside::opt_text;
use crate::routes::admin::{confirms, marks};
use crate::routes::{device_admitted, owner_admitted, owner_proven};

verus! {

/// What the session check gives for the device that was found by the token and
/// the account that was found by the device: the device, or the refusal.
pub open spec fn session_outcome(
    device: Option<Identity>,
    ip: Seq<char>,
    owner: Option<User>,
) -> Result<Identity, Failure> {
    if device_admitted(device, ip) && owner_admitted(owner) {
        Ok(device->0)
    } else {
        Err(refused())
    }
}

/// Whether answers are those that the database may give to the session check:
/// the device by the digest of the token, then its account.
pub open spec fn session_answers(
    db: Tables,
    digest: IdentityKey,
    account: UserKey,
    device: Option<Identity>,
    owner: Option<User>,
) -> bool {
    &&& digest is DeviceToken
    &&& answers_device(db.identities, digest, device)
    &&& device is Some && device->0.user_id is Some ==> {
        &&& account is Uuid
        &&& account->Uuid_0@ == device->0.user_id->0@
        &&& answers_account(db.users, account, owner)
    }
}

/// Whether a device may act: it holds the token, calls from its own address, is
/// confirmed, and belongs to an account that exists and is not deleted.
pub open spec fn may_act(db: Tables, device: Identity, digest: Seq<char>, ip: Seq<char>) -> bool {
    &&& db.identities.contains(device)
    &&& opt_text(device.device_token) == Some(digest)
    &&& device.ip_address@ == ip
    &&& device.is_confirmed
    &&& device.user_id is Some
    &&& exists|user: User| #[trigger]
        db.users.contains(user) && user.uuid@ == device.user_id->0@ && !user.is_deleted
}

/// A request is taken for a device exactly if the device may act. Where it is
/// not, the answer is the same whatever the reason.
pub proof fn law_session_exactly_if_device_may_act(
    db: Tables,
    digest: IdentityKey,
    account: UserKey,
    ip: Seq<char>,
    device: Option<Identity>,
    owner: Option<User>,
)
    requires
        accounts_distinct(db.users),
        session_answers(db, digest, account, device, owner),
        forall|a: Identity, b: Identity|
            db.identities.contains(a) && db.identities.contains(b) && #[trigger] digest.finds(a)
                && #[trigger] digest.finds(b) ==> a == b,
    ensures
        match session_outcome(device, ip, owner) {
            Ok(found) => may_act(db, found, digest->DeviceToken_0@, ip),
            Err(e) => e == refused() && forall|other: Identity|
                !#[trigger] may_act(db, other, digest->DeviceToken_0@, ip),
        },
{
    let wanted = |row: Identity| digest.finds(row);
    match session_outcome(device, ip, owner) {
        Ok(found) => {
            assert(wanted(found));
            let wanted_user = |row: User| account.finds(row);
            assert(wanted_user(owner->0));
            assert(db.users.contains(owner->0));
        },
        Err(e) => {
            assert forall|other: Identity|
                !#[trigger] may_act(db, other, digest->DeviceToken_0@, ip) by {
                if may_act(db, other, digest->DeviceToken_0@, ip) {
                    assert(digest.finds(other));
                    assert(wanted(other));
                    assert(device is Some);
                    assert(wanted(device->0));
                    assert(device->0 == other);
                    let user = choose|user: User| #[trigger]
                        db.users.contains(user) && user.uuid@ == other.user_id->0@
                            && !user.is_deleted;
                    let wanted_user = |row: User| account.finds(row);
                    assert(wanted_user(user));
                    assert(owner is Some);
                    assert(wanted_user(owner->0));
                    let i = choose|i: int|
                        0 <= i < db.users.len() && db.users[i] == user;
                    let j = choose|j: int|
                        0 <= j < db.users.len() && db.users[j] == owner->0;
                    assert(db.users[i].uuid@ == db.users[j].uuid@);
                    assert(i == j);
                }
            }
        },
    }
}

/// A request with a token that no device holds is refused.
pub proof fn law_unknown_token_is_refused(
    db: Tables,
    token: Seq<char>,
    digest: IdentityKey,
    account: UserKey,
    ip: Seq<char>,
    device: Option<Identity>,
    owner: Option<User>,
)
    requires
        session_answers(db, digest, account, device, owner),
        digest->DeviceToken_0@ == token_digest(token),
        forall|row: Identity| #[trigger]
            db.identities.contains(row) ==> opt_text(row.device_token) != Some(
                token_digest(token),
            ),
    ensures
        session_outcome(device, ip, owner) == Err::<Identity, Failure>(refused()),
{
    if device is Some {
        let wanted = |row: Identity| digest.finds(row);
        assert(wanted(device->0));
    }
}

/// Once an account is soft-deleted, no device of it is taken for it, whatever
/// its token and its address.
pub proof fn law_deleted_account_has_no_session(
    before: Tables,
    after: Tables,
    command: UserCommand,
    name: Seq<char>,
    digest: IdentityKey,
    account: UserKey,
    ip: Seq<char>,
    device: Option<Identity>,
    owner: Option<User>,
)
    requires
        marks(command, name, true),
        command.effect(before.users, after.users),
        session_answers(after, digest, account, device, owner),
        device is Some,
        opt_text(device->0.user_id) == Some(name),
    ensures
        session_outcome(device, ip, owner) == Err::<Identity, Failure>(refused()),
{
    if owner is Some {
        let wanted = |row: User| account.finds(row);
        assert(wanted(owner->0));
        let i = choose|i: int| 0 <= i < after.users.len() && after.users[i] == owner->0;
        assert(after.users[i].uuid@ == before.users[i].uuid@);
    }
}

/// Once an account is soft-deleted, nobody signs in to it, not even with its
/// secret.
pub proof fn law_deleted_account_has_no_sign_in(
    before: Seq<User>,
    after: Seq<User>,
    command: UserCommand,
    account: Seq<char>,
    by_name: UserKey,
    found: Option<User>,
    ehlo: Seq<u8>,
    secret: Seq<u8>,
)
    requires
        marks(command, account, true),
        command.effect(before, after),
        answers_account(after, by_name, found),
        found is Some,
        found->0.uuid@ == account,
    ensures
        owner_proven(found, ehlo, secret) == Err::<(), Failure>(refused()),
{
    let i = choose|i: int| 0 <= i < after.len() && after[i] == found->0;
    assert(after[i].uuid@ == before[i].uuid@);
}

/// An unknown name, a deleted account and a wrong secret get the same answer.
pub proof fn law_sign_in_refusals_are_alike(
    unknown: Option<User>,
    deleted: Option<User>,
    wrong: Option<User>,
    ehlo: Seq<u8>,
    secret: Seq<u8>,
)
    requires
        unknown is None,
        deleted is Some && deleted->0.is_deleted,
        wrong is Some && owner_proven(wrong, ehlo, secret) is Err,
        crate::outside::is_hex(wrong->0.ehlo_secret@),
        crate::crypto::keys::opened(
            crate::outside::hex_bytes(wrong->0.ehlo_secret@),
            secret,
        ) is Ok,
    ensures
        owner_proven(unknown, ehlo, secret) == Err::<(), Failure>(refused()),
        owner_proven(deleted, ehlo, secret) == Err::<(), Failure>(refused()),
        owner_proven(wrong, ehlo, secret) == Err::<(), Failure>(refused()),
{
}

/// While a device is not confirmed, it is not taken for its account. Confirming
/// it changes nothing else about it.
pub proof fn law_confirmation_gates_the_session(
    before: Seq<Identity>,
    after: Seq<Identity>,
    command: IdentityCommand,
    uuid: Seq<char>,
    confirmed: bool,
    i: int,
    ip: Seq<char>,
)
    requires
        confirms(command, uuid, confirmed),
        command.effect(before, after),
        0 <= i < before.len(),
        before[i].uuid@ == uuid,
    ensures
        after.len() == before.len(),
        after[i] == (Identity {
            is_confirmed: confirmed,
            updated_at: after[i].updated_at,
            ..before[i]
        }),
        device_admitted(Some(after[i]), ip) <==> confirmed && before[i].ip_address@ == ip
            && before[i].user_id is Some,
{
}

} // verus!
