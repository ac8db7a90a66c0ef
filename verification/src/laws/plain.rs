//! The words in which the laws on passwords speak of stored bytes and of days.

use vstd::prelude::*;

use crate::crypto::keys::opened;
use crate::domain::identity::Identity;
use crate::domain::password::Password;
use crate::outside::{aes_gcm_opened, hex_bytes, is_hex, x25519_value};
use crate::routes::device_key;
use crate::routes::passwords::{days_left, expired_at};

verus! {

/// What a nonce of twelve bytes and a ciphertext behind it hold under a key.
pub open spec fn plain_of(blob: Seq<u8>, key: Seq<u8>) -> Option<Seq<u8>> {
    if blob.len() < 12 {
        None
    } else {
        aes_gcm_opened(key, blob.take(12), blob.skip(12))
    }
}

/// What a hexadecimal text holds under a key.
pub open spec fn plain_in(text: Seq<char>, key: Seq<u8>) -> Option<Seq<u8>> {
    if is_hex(text) {
        plain_of(hex_bytes(text), key)
    } else {
        None
    }
}

/// The key that the server and a device agree on, where both halves are stored
/// as they should be.
pub open spec fn key_between(device: Identity, secret: Seq<u8>) -> Option<Seq<u8>> {
    match plain_of(device.server_private_key@, secret) {
        Some(private) => if private.len() == 32 && device.client_public_key@.len() == 32 {
            Some(x25519_value(private, device.client_public_key@))
        } else {
            None
        },
        None => None,
    }
}

/// Whether as many days of 86400 seconds have passed since a password was set as
/// it was to hold for.
pub open spec fn lapsed(row: Password, now: int) -> bool {
    row.valid_since_days <= 0 || now >= row.valid_since@ + row.valid_since_days
        * 86_400_000_000_000
}

/// Whether a number of days is that of the days, begun ones counted as whole
/// ones, until a window closes.
pub open spec fn days_until_close(shown: int, since: int, days: int, now: int) -> bool {
    &&& now < since ==> shown == days
    &&& since <= now && since + days * 86_400_000_000_000 <= now ==> shown == 0
    &&& since <= now < since + days * 86_400_000_000_000 ==> {
        &&& 1 <= shown <= days
        &&& (shown - 1) * 86_400_000_000_000 < since + days * 86_400_000_000_000 - now
        &&& since + days * 86_400_000_000_000 - now <= shown * 86_400_000_000_000
    }
}

pub proof fn lemma_days(row: Password, now: int)
    ensures
        expired_at(row, now) == lapsed(row, now),
        days_until_close(
            days_left(row.valid_since@, row.valid_since_days as int, now),
            row.valid_since@,
            row.valid_since_days as int,
            now,
        ),
{
}

pub proof fn lemma_plain(blob: Seq<u8>, key: Seq<u8>)
    ensures
        opened(blob, key) is Ok <==> plain_of(blob, key) is Some,
        plain_of(blob, key) matches Some(p) ==> opened(blob, key)->Ok_0 == p,
{
}

pub proof fn lemma_key(device: Identity, secret: Seq<u8>)
    ensures
        device_key(device, secret) is Ok <==> key_between(device, secret) is Some,
        key_between(device, secret) matches Some(k) ==> device_key(device, secret)->Ok_0 == k,
{
    lemma_plain(device.server_private_key@, secret);
}

} // verus!
