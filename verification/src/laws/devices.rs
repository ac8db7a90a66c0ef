//! What happens to a device from its first greeting to its removal.

use vstd::prelude::*;

use crate::client::greeted_key;
use crate::crypto::token_digest;
use crate::domain::identity::{identity_stored, Identity, IdentityCommand, IdentityKey};
use crate::error::Failure;
use crate::laws::{addresses_distinct, answers_device, devices_distinct};
use crate::outside::{hex_text, opt_text, public_key};
use crate::routes::admin::confirms;
use crate::routes::greet::fresh_device;
use crate::routes::refresh::{rotates, RefreshUpdate};
use crate::routes::resign::{rebinds, ResignUpdate};
use crate::routes::signin::{links, LinkDevice};
use crate::routes::{agreed, device_admitted, device_key, paired};
use crate::text::law_hex_round_trip;

verus! {

/// A greeting that found no device at its address keeps the addresses distinct.
/// Whoever greets from there afterwards finds a device.
pub proof fn law_one_device_per_address(
    before: Seq<Identity>,
    after: Seq<Identity>,
    command: IdentityCommand,
    key: IdentityKey,
    later: Option<Identity>,
)
    requires
        addresses_distinct(before),
        key is Ip,
        answers_device(before, key, None),
        command is Insert,
        command->Insert_0.ip_address@ == key->Ip_0@,
        command.effect(before, after),
        answers_device(after, key, later),
    ensures
        addresses_distinct(after),
        later is Some,
        later->0.ip_address@ == key->Ip_0@,
{
    let wanted = |row: Identity| key.finds(row);
    let new = choose|row: Identity| #[trigger]
        identity_stored(command->Insert_0, row) && after == before.push(row);
    assert forall|i: int| 0 <= i < before.len() implies (#[trigger] before[i]).ip_address@
        != new.ip_address@ by {
        assert(before.contains(before[i]));
        assert(!wanted(before[i]));
    }
    assert(after[before.len() as int] == new);
    assert(after.contains(new));
    assert(wanted(new));
    if later is Some {
        assert(wanted(later->0));
    }
}

/// A device that was just greeted has a key pair of which the server gives out
/// the public half, belongs to nobody and may not act from anywhere.
pub proof fn law_fresh_device_may_not_act(
    before: Seq<Identity>,
    after: Seq<Identity>,
    command: IdentityCommand,
    ip: Seq<char>,
    client_public_key: Seq<u8>,
    secret: Seq<u8>,
    from: Seq<char>,
)
    requires
        command is Insert,
        fresh_device(command->Insert_0, ip, client_public_key, secret),
        command.effect(before, after),
    ensures
        after.len() == before.len() + 1,
        forall|i: int| 0 <= i < before.len() ==> #[trigger] after[i] == before[i],
        paired(after.last(), secret),
        after.last().client_public_key@ == client_public_key,
        !device_admitted(Some(after.last()), from),
{
    let new = choose|row: Identity| #[trigger]
        identity_stored(command->Insert_0, row) && after == before.push(row);
    assert(after.last() == new);
}

/// A device that was greeted derives the same key as the server, from its own
/// private key and the answer to its greeting.
pub proof fn law_greeting_agrees_on_a_key(
    command: IdentityCommand,
    row: Identity,
    ip: Seq<char>,
    client_private: Seq<u8>,
    secret: Seq<u8>,
    answer: Seq<char>,
    key: Seq<u8>,
)
    requires
        client_private.len() == 32,
        command is Insert,
        fresh_device(command->Insert_0, ip, public_key(client_private), secret),
        identity_stored(command->Insert_0, row),
        answer == hex_text(command->Insert_0.server_public_key@),
        device_key(row, secret) == Ok::<Seq<u8>, Failure>(key),
        agreed(row, secret, key),
    ensures
        greeted_key(client_private, answer) == Ok::<Seq<u8>, Failure>(key),
{
    law_hex_round_trip(command->Insert_0.server_public_key@);
}

/// Signing up or in links the device to the account under the new token and
/// leaves it waiting for approval. Its address and its keys stay, and so do all
/// other devices.
pub proof fn law_linked_device_waits(
    before: Seq<Identity>,
    after: Seq<Identity>,
    step: LinkDevice,
    device: Seq<char>,
    account: Seq<char>,
    token: Seq<char>,
    secret: Seq<u8>,
    from: Seq<char>,
    i: int,
)
    requires
        links(step, device, account, token),
        step.command.effect(before, after),
        0 <= i < before.len(),
    ensures
        after.len() == before.len(),
        before[i].uuid@ != device ==> after[i] == before[i],
        before[i].uuid@ == device ==> {
            &&& opt_text(after[i].user_id) == Some(account)
            &&& opt_text(after[i].device_token) == Some(token_digest(token))
            &&& after[i].ip_address == before[i].ip_address
            &&& device_key(after[i], secret) == device_key(before[i], secret)
            &&& !device_admitted(Some(after[i]), from)
        },
{
}

/// Refreshing gives the device the new token. Its address, its approval, its
/// account and the key that it shares with the server stay, and so do all other
/// devices.
pub proof fn law_refresh_keeps_all_but_the_token(
    before: Seq<Identity>,
    after: Seq<Identity>,
    step: RefreshUpdate,
    device: Seq<char>,
    token: Seq<char>,
    secret: Seq<u8>,
    from: Seq<char>,
    i: int,
)
    requires
        rotates(step, device, token),
        step.command.effect(before, after),
        0 <= i < before.len(),
    ensures
        after.len() == before.len(),
        before[i].uuid@ != device ==> after[i] == before[i],
        before[i].uuid@ == device ==> {
            &&& opt_text(after[i].device_token) == Some(token_digest(token))
            &&& after[i] == (Identity {
                device_token: after[i].device_token,
                updated_at: after[i].updated_at,
                ..before[i]
            })
            &&& device_key(after[i], secret) == device_key(before[i], secret)
            &&& device_admitted(Some(after[i]), from) == device_admitted(Some(before[i]), from)
        },
{
}

/// After a refresh the old token finds no device, if no other device held it
/// and the new token has another digest.
pub proof fn law_refresh_revokes_the_old_token(
    before: Seq<Identity>,
    after: Seq<Identity>,
    step: RefreshUpdate,
    device: Seq<char>,
    old_token: Seq<char>,
    token: Seq<char>,
    key: IdentityKey,
    reply: Option<Identity>,
)
    requires
        rotates(step, device, token),
        step.command.effect(before, after),
        token_digest(old_token) != token_digest(token),
        forall|i: int|
            0 <= i < before.len() && opt_text((#[trigger] before[i]).device_token) == Some(
                token_digest(old_token),
            ) ==> before[i].uuid@ == device,
        key is DeviceToken,
        key->DeviceToken_0@ == token_digest(old_token),
        answers_device(after, key, reply),
    ensures
        reply is None,
{
    if reply is Some {
        let wanted = |row: Identity| key.finds(row);
        assert(wanted(reply->0));
        let i = choose|i: int| 0 <= i < after.len() && after[i] == reply->0;
        assert(before[i].uuid@ == after[i].uuid@);
    }
}

/// After a refresh the new token finds the device, if no other device holds one
/// with the same digest.
pub proof fn law_refreshed_token_finds_the_device(
    before: Seq<Identity>,
    after: Seq<Identity>,
    step: RefreshUpdate,
    device: Seq<char>,
    token: Seq<char>,
    i: int,
    key: IdentityKey,
    reply: Option<Identity>,
)
    requires
        devices_distinct(before),
        rotates(step, device, token),
        step.command.effect(before, after),
        0 <= i < before.len(),
        before[i].uuid@ == device,
        forall|j: int|
            0 <= j < before.len() && opt_text((#[trigger] before[j]).device_token) == Some(
                token_digest(token),
            ) ==> j == i,
        key is DeviceToken,
        key->DeviceToken_0@ == token_digest(token),
        answers_device(after, key, reply),
    ensures
        reply == Some(after[i]),
{
    let wanted = |row: Identity| key.finds(row);
    assert(after[i].uuid@ == before[i].uuid@);
    assert(after.contains(after[i]));
    assert(wanted(after[i]));
    assert(reply is Some);
    assert(wanted(reply->0));
    let j = choose|j: int| 0 <= j < after.len() && after[j] == reply->0;
    if j != i {
        assert(before[j].uuid@ != before[i].uuid@);
        assert(after[j] == before[j]);
    }
}

/// A device that was linked to an account and then approved may act for it from
/// its address.
pub proof fn law_enrolment_ends_in_a_session(
    before: Seq<Identity>,
    linked: Seq<Identity>,
    after: Seq<Identity>,
    step: LinkDevice,
    approval: IdentityCommand,
    device: Seq<char>,
    account: Seq<char>,
    token: Seq<char>,
    i: int,
)
    requires
        0 <= i < before.len(),
        before[i].uuid@ == device,
        links(step, device, account, token),
        step.command.effect(before, linked),
        confirms(approval, device, true),
        approval.effect(linked, after),
    ensures
        !device_admitted(Some(linked[i]), before[i].ip_address@),
        device_admitted(Some(after[i]), before[i].ip_address@),
        opt_text(after[i].user_id) == Some(account),
        opt_text(after[i].device_token) == Some(token_digest(token)),
{
    assert(linked[i].uuid@ == device);
}

/// Re-signing binds the device to the new address, where it waits for approval.
/// Its token, its account and the key that it shares with the server stay, and
/// so do all other devices.
pub proof fn law_resign_rebinds(
    before: Seq<Identity>,
    after: Seq<Identity>,
    step: ResignUpdate,
    device: Seq<char>,
    ip: Seq<char>,
    secret: Seq<u8>,
    from: Seq<char>,
    i: int,
)
    requires
        rebinds(step, device, ip),
        step.command.effect(before, after),
        0 <= i < before.len(),
    ensures
        after.len() == before.len(),
        before[i].uuid@ != device ==> after[i] == before[i],
        before[i].uuid@ == device ==> {
            &&& after[i].ip_address@ == ip
            &&& !after[i].is_confirmed
            &&& after[i] == (Identity {
                ip_address: after[i].ip_address,
                is_confirmed: false,
                updated_at: after[i].updated_at,
                ..before[i]
            })
            &&& device_key(after[i], secret) == device_key(before[i], secret)
            &&& !device_admitted(Some(after[i]), from)
        },
{
}

/// Removing a device takes away that device and no other.
pub proof fn law_removal_takes_one_device(
    before: Seq<Identity>,
    after: Seq<Identity>,
    command: IdentityCommand,
    row: Identity,
)
    requires
        command is Delete,
        command.effect(before, after),
    ensures
        after.contains(row) <==> before.contains(row) && row.uuid@ != command->Delete_0@,
{
    let kept = |row: Identity| row.uuid@ != command->Delete_0@;
    broadcast use vstd::seq_lib::group_filter_ensures;
    if before.contains(row) && kept(row) {
        let i = choose|i: int| 0 <= i < before.len() && before[i] == row;
        assert(before.filter(kept).contains(before[i]));
    }
    if after.contains(row) {
        let j = choose|j: int| 0 <= j < after.len() && after[j] == row;
        assert(kept(before.filter(kept)[j]));
        before.lemma_filter_contains_rev(kept, row);
    }
}

/// Removing a device frees its address: whoever greets from there finds none.
pub proof fn law_removal_frees_the_address(
    before: Seq<Identity>,
    after: Seq<Identity>,
    command: IdentityCommand,
    i: int,
    key: IdentityKey,
    reply: Option<Identity>,
)
    requires
        addresses_distinct(before),
        command is Delete,
        0 <= i < before.len(),
        before[i].uuid@ == command->Delete_0@,
        command.effect(before, after),
        key is Ip,
        key->Ip_0@ == before[i].ip_address@,
        answers_device(after, key, reply),
    ensures
        reply is None,
{
    if reply is Some {
        let wanted = |row: Identity| key.finds(row);
        assert(wanted(reply->0));
        law_removal_takes_one_device(before, after, command, reply->0);
        let j = choose|j: int| 0 <= j < before.len() && before[j] == reply->0;
        assert(before[j].ip_address@ == before[i].ip_address@);
        assert(i == j);
    }
}

/// Changing or removing devices keeps their identifiers distinct.
pub proof fn law_identifiers_stay_distinct(
    before: Seq<Identity>,
    after: Seq<Identity>,
    command: IdentityCommand,
)
    requires
        devices_distinct(before),
        command !is Insert,
        command.effect(before, after),
    ensures
        devices_distinct(after),
{
    match command {
        IdentityCommand::Delete(uuid) => {
            lemma_filter_keeps_distinct(before, |row: Identity| row.uuid@ != uuid@);
        },
        _ => {
            assert forall|i: int, j: int| 0 <= i < j < after.len() implies (
            #[trigger] after[i]).uuid@ != (#[trigger] after[j]).uuid@ by {
                assert(after[i].uuid@ == before[i].uuid@);
                assert(after[j].uuid@ == before[j].uuid@);
            }
        },
    }
}

/// What filtering leaves of distinct devices is distinct.
proof fn lemma_filter_keeps_distinct(rows: Seq<Identity>, kept: spec_fn(Identity) -> bool)
    requires
        devices_distinct(rows),
    ensures
        devices_distinct(rows.filter(kept)),
        forall|i: int|
            0 <= i < rows.filter(kept).len() ==> rows.contains(#[trigger] rows.filter(kept)[i]),
    decreases rows.len(),
{
    reveal(Seq::filter);
    if rows.len() > 0 {
        let head = rows.drop_last();
        lemma_filter_keeps_distinct(head, kept);
        let some = head.filter(kept);
        assert forall|i: int| 0 <= i < some.len() implies (#[trigger] some[i]).uuid@
            != rows.last().uuid@ && rows.contains(some[i]) by {
            assert(head.contains(some[i]));
            let k = choose|k: int| 0 <= k < head.len() && head[k] == some[i];
            assert(rows[k] == head[k]);
            assert(rows[rows.len() - 1] == rows.last());
        }
        assert(rows.contains(rows[rows.len() - 1]));
    }
}

} // verus!
