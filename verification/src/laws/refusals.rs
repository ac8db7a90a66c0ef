//! Which of several things that are wrong with a request is answered, and how.

use vstd::prelude::*;
use vstd::utf8::valid_utf8;

use crate::chance::drawn_nonce;
use crate::config::Config;
use crate::crypto::encrypt::{decrypt_db, encrypt_db};
use crate::crypto::keys::{
    decrypt_with_shared_key, derive_shared_key, encrypt_with_shared_key, opened,
};
use crate::domain::identity::Identity;
use crate::domain::user::User;
use crate::error::{AppResult, Failure};
use crate::laws::plain::{key_between, lemma_key, lemma_plain, plain_in, plain_of};
use crate::outside::{hex_bytes, is_hex};
use crate::routes::greet::{greet_handler, GreetLookup, GreetRequest};
use crate::routes::passwords::{
    create_handler, decrypt_from_client, encrypt_for_client, own_group, receive_password,
    update_handler, CreateChecked, CreatePasswordRequest, UpdateChecked, UpdatePasswordRequest,
};
use crate::routes::refresh::{RefreshLookup, RefreshOwner};
use crate::routes::resign::{resign_handler, ResignLookup, ResignOwner, ResignRequest};
use crate::routes::signin::{
    validate_name, SignInLookup, SignInName, SignUpLookup, SignUpName,
};
use crate::routes::{device_key, device_shared_key, prove_owner, ClientIp};
use crate::text::decimal_text;

verus! {

/// What is wrong with bytes that do not open.
pub open spec fn unopened(blob: Seq<u8>) -> Failure {
    if blob.len() < 12 {
        Failure::Crypto("encrypted data too short"@)
    } else {
        Failure::Crypto("decryption failed: aead::Error"@)
    }
}

/// What is wrong with a device that the server shares no key with.
pub open spec fn keyless(device: Identity, secret: Seq<u8>) -> Failure {
    match plain_of(device.server_private_key@, secret) {
        None => unopened(device.server_private_key@),
        Some(private) => if private.len() != 32 {
            Failure::Crypto("invalid private key length"@)
        } else {
            Failure::Crypto("invalid public key length"@)
        },
    }
}

proof fn lemma_unopened(blob: Seq<u8>, key: Seq<u8>)
    ensures
        plain_of(blob, key) is None ==> opened(blob, key) == Err::<Seq<u8>, Failure>(
            unopened(blob),
        ),
        plain_of(blob, key) matches Some(p) ==> opened(blob, key) == Ok::<Seq<u8>, Failure>(p),
{
}

proof fn lemma_keyless(device: Identity, secret: Seq<u8>)
    ensures
        key_between(device, secret) is None ==> device_key(device, secret) == Err::<
            Seq<u8>,
            Failure,
        >(keyless(device, secret)),
        key_between(device, secret) matches Some(k) ==> device_key(device, secret) == Ok::<
            Seq<u8>,
            Failure,
        >(k),
{
    lemma_unopened(device.server_private_key@, secret);
    lemma_key(device, secret);
}

// ---------------------------------------------------------------------------
// Keys and sealed bytes
// ---------------------------------------------------------------------------

/// Bytes that do not open are too short for a nonce, or were not sealed under
/// the key; bytes that cannot be sealed are too many. Which, the answer says.
pub proof fn law_sealing_and_opening_say_what_is_wrong(
    data: &[u8],
    key: &[u8; 32],
    sealed: AppResult<Vec<u8>>,
    read: AppResult<Vec<u8>>,
)
    requires
        call_ensures(encrypt_with_shared_key, (data, key), sealed) || call_ensures(
            encrypt_db,
            (data, key),
            sealed,
        ),
        call_ensures(decrypt_with_shared_key, (data, key), read) || call_ensures(
            decrypt_db,
            (data, key),
            read,
        ),
    ensures
        sealed matches Err(e) ==> e@ == Failure::Crypto("encryption failed: aead::Error"@),
        data@.len() < 12 ==> read is Err && read->Err_0@ == Failure::Crypto(
            "encrypted data too short"@,
        ),
        data@.len() >= 12 && read is Err ==> read->Err_0@ == Failure::Crypto(
            "decryption failed: aead::Error"@,
        ),
{
}

/// A key of another length than thirty-two bytes is no key, and the private one
/// is looked at first.
pub proof fn law_wrong_lengths_of_keys_are_named(
    private: &[u8],
    public: &[u8],
    r: AppResult<[u8; 32]>,
)
    requires
        call_ensures(derive_shared_key, (private, public), r),
    ensures
        private@.len() != 32 ==> r is Err && r->Err_0@ == Failure::Crypto(
            "invalid private key length"@,
        ),
        private@.len() == 32 && public@.len() != 32 ==> r is Err && r->Err_0@ == Failure::Crypto(
            "invalid public key length"@,
        ),
{
}

/// The server has a key with every device of which both halves are stored as
/// they should be, and says what is wrong with any other one.
pub proof fn law_devices_have_a_key(device: Identity, config: Config, r: AppResult<[u8; 32]>)
    requires
        call_ensures(device_shared_key, (&device, &config), r),
    ensures
        r is Ok <==> key_between(device, config.database_encrypt_secret@) is Some,
        r matches Ok(key) ==> key_between(device, config.database_encrypt_secret@) == Some(key@),
        r matches Err(e) ==> e@ == keyless(device, config.database_encrypt_secret@),
{
    lemma_keyless(device, config.database_encrypt_secret@);
}

// ---------------------------------------------------------------------------
// Requests of devices
// ---------------------------------------------------------------------------

/// What is wrong with two texts that a device should have sealed, the first of
/// them text: the key of the device, the form of either, its seal, or what it
/// holds.
pub open spec fn wrong_pair(
    device: Identity,
    secret: Seq<u8>,
    first: Seq<char>,
    second: Seq<char>,
    messages: (Seq<char>, Seq<char>, Seq<char>),
) -> Option<Failure> {
    let key = key_between(device, secret);
    if key is None {
        Some(keyless(device, secret))
    } else if !is_hex(first) {
        Some(Failure::Validation(messages.0))
    } else if !is_hex(second) {
        Some(Failure::Validation(messages.1))
    } else if plain_in(first, key->0) is None {
        Some(unopened(hex_bytes(first)))
    } else if plain_in(second, key->0) is None {
        Some(unopened(hex_bytes(second)))
    } else if !valid_utf8(plain_in(first, key->0)->0) {
        Some(Failure::Validation(messages.2))
    } else {
        None
    }
}

proof fn lemma_pair(device: Identity, secret: Seq<u8>, first: Seq<char>, second: Seq<char>)
    ensures
        key_between(device, secret) matches Some(key) ==> {
            &&& plain_of(hex_bytes(first), key) is None ==> opened(hex_bytes(first), key) == Err::<
                Seq<u8>,
                Failure,
            >(unopened(hex_bytes(first)))
            &&& plain_of(hex_bytes(second), key) is None ==> opened(hex_bytes(second), key)
                == Err::<Seq<u8>, Failure>(unopened(hex_bytes(second)))
        },
{
    if key_between(device, secret) is Some {
        let key = key_between(device, secret)->0;
        lemma_unopened(hex_bytes(first), key);
        lemma_unopened(hex_bytes(second), key);
    }
}

/// Signing up and signing in answer the first thing that is wrong with what the
/// device sent.
pub proof fn law_signing_says_what_is_wrong(
    device: Identity,
    config: Config,
    up: SignUpLookup,
    up_next: AppResult<SignUpName>,
    sign_in: SignInLookup,
    sign_in_next: AppResult<SignInName>,
)
    requires
        call_ensures(SignUpLookup::found, (up, Some(device), &config), up_next),
        call_ensures(SignInLookup::found, (sign_in, Some(device), &config), sign_in_next),
    ensures
        ({
            let messages = ("invalid name hex"@, "invalid ehlo hex"@, "name must be valid utf8"@);
            let secret = config.database_encrypt_secret@;
            let up_wrong = wrong_pair(
                device,
                secret,
                up.request.name@,
                up.request.ehlo@,
                messages,
            );
            let in_wrong = wrong_pair(
                device,
                secret,
                sign_in.request.name@,
                sign_in.request.ehlo@,
                messages,
            );
            &&& up_wrong is Some ==> up_next is Err && up_next->Err_0@ == up_wrong->0
            &&& in_wrong is Some ==> sign_in_next is Err && sign_in_next->Err_0@ == in_wrong->0
            &&& in_wrong is None ==> sign_in_next is Ok
        }),
{
    let secret = config.database_encrypt_secret@;
    lemma_keyless(device, secret);
    lemma_pair(device, secret, up.request.name@, up.request.ehlo@);
    lemma_pair(device, secret, sign_in.request.name@, sign_in.request.ehlo@);
    if key_between(device, secret) is Some {
        let key = key_between(device, secret)->0;
        lemma_plain(hex_bytes(up.request.name@), key);
        lemma_plain(hex_bytes(up.request.ehlo@), key);
        lemma_plain(hex_bytes(sign_in.request.name@), key);
        lemma_plain(hex_bytes(sign_in.request.ehlo@), key);
    }
}

/// Refreshing and re-signing answer the first thing that is wrong with what the
/// device sent.
pub proof fn law_refreshing_says_what_is_wrong(
    device: Identity,
    config: Config,
    refresh: RefreshLookup,
    refresh_next: AppResult<RefreshOwner>,
    resign: ResignLookup,
    resign_next: AppResult<ResignOwner>,
)
    requires
        call_ensures(RefreshLookup::found, (refresh, Some(device), &config), refresh_next),
        call_ensures(ResignLookup::found, (resign, Some(device), &config), resign_next),
    ensures
        ({
            let secret = config.database_encrypt_secret@;
            let key = key_between(device, secret);
            let wrong = wrong_pair(
                device,
                secret,
                refresh.request.token@,
                refresh.request.ehlo@,
                ("invalid token hex"@, "invalid ehlo hex"@, "token must be valid utf8"@),
            );
            &&& wrong is Some ==> refresh_next is Err && refresh_next->Err_0@ == wrong->0
            &&& key is None ==> resign_next is Err && resign_next->Err_0@ == keyless(
                device,
                secret,
            )
            &&& key is Some && plain_of(resign.ehlo_sealed@, key->0) is None ==> resign_next is Err
                && resign_next->Err_0@ == unopened(resign.ehlo_sealed@)
        }),
{
    let secret = config.database_encrypt_secret@;
    lemma_keyless(device, secret);
    lemma_pair(device, secret, refresh.request.token@, refresh.request.ehlo@);
    if key_between(device, secret) is Some {
        let key = key_between(device, secret)->0;
        lemma_plain(hex_bytes(refresh.request.token@), key);
        lemma_plain(hex_bytes(refresh.request.ehlo@), key);
        lemma_unopened(resign.ehlo_sealed@, key);
    }
}

/// A greeting or a request to re-sign of another form is answered with what is
/// wrong with it.
pub proof fn law_malformed_requests_are_named(
    greeting: GreetRequest,
    ip: ClientIp,
    greeted: AppResult<GreetLookup>,
    request: ResignRequest,
    resigned: AppResult<ResignLookup>,
)
    requires
        call_ensures(greet_handler, (&greeting, ip), greeted),
        call_ensures(resign_handler, (&request,), resigned),
    ensures
        !is_hex(greeting.pub_key@) ==> greeted->Err_0@ == Failure::Validation(
            "invalid pub_key hex encoding"@,
        ),
        is_hex(greeting.pub_key@) && greeting.pub_key@.len() != 64 ==> greeted->Err_0@
            == Failure::Validation("pub_key must be exactly 32 bytes (64 hex chars)"@),
        !is_hex(request.token@) ==> resigned->Err_0@ == Failure::Validation("invalid token hex"@),
        is_hex(request.token@) && !is_hex(request.ehlo@) ==> resigned->Err_0@
            == Failure::Validation("invalid ehlo hex"@),
        is_hex(request.token@) && is_hex(request.ehlo@) && !valid_utf8(hex_bytes(request.token@))
            ==> resigned->Err_0@ == Failure::Validation("token must be valid utf8"@),
{
}

/// A name has one to sixty-four characters.
pub proof fn law_names_have_their_length(name: &str, r: AppResult<()>)
    requires
        call_ensures(validate_name, (name,), r),
    ensures
        r is Ok <==> 1 <= name@.len() <= 64,
        name@.len() == 0 ==> r->Err_0@ == Failure::Validation("name must not be empty"@),
        name@.len() > 64 ==> r->Err_0@ == Failure::Validation(
            "name"@ + " exceeds "@ + decimal_text(64) + " characters"@,
        ),
{
}

/// The names and notes of passwords that are too long are named, the name first.
pub proof fn law_long_labels_are_named(
    create: CreatePasswordRequest,
    created: AppResult<CreateChecked>,
    uuid: String,
    update: UpdatePasswordRequest,
    updated: AppResult<UpdateChecked>,
)
    requires
        call_ensures(create_handler, (create,), created),
        call_ensures(update_handler, (uuid, update), updated),
    ensures
        ({
            let name = Failure::Validation(
                "password name"@ + " exceeds "@ + decimal_text(256) + " characters"@,
            );
            let extra = Failure::Validation(
                "password extra"@ + " exceeds "@ + decimal_text(4096) + " characters"@,
            );
            &&& create.name is Some && create.name->0@.len() > 256 ==> created->Err_0@ == name
            &&& created is Err && (create.name is None || create.name->0@.len() <= 256)
                ==> created->Err_0@ == extra
            &&& update.name is Some && update.name->0@.len() > 256 ==> updated->Err_0@ == name
            &&& updated is Err && (update.name is None || update.name->0@.len() <= 256)
                ==> updated->Err_0@ == extra
        }),
{
}

/// An account is proven by its secret, unless it is missing or deleted. What is
/// stored wrongly is the fault of the server, and everything else is answered
/// alike.
pub proof fn law_accounts_are_proven_by_their_secret(
    owner: Option<User>,
    ehlo: &[u8],
    config: Config,
    r: AppResult<()>,
)
    requires
        call_ensures(prove_owner, (&owner, ehlo, &config), r),
    ensures
        ({
            let secret = config.database_encrypt_secret@;
            let refusal = Failure::Unauthorized("unauthorized"@);
            &&& r is Ok <==> owner is Some && !owner->0.is_deleted && plain_in(
                owner->0.ehlo_secret@,
                secret,
            ) == Some(ehlo@)
            &&& owner is None || owner->0.is_deleted ==> r->Err_0@ == refusal
            &&& owner is Some && !owner->0.is_deleted && r is Err ==> {
                let stored = owner->0.ehlo_secret@;
                &&& !is_hex(stored) ==> r->Err_0@ == Failure::Crypto(
                    "invalid ehlo storage format"@,
                )
                &&& is_hex(stored) && plain_in(stored, secret) is None ==> r->Err_0@ == unopened(
                    hex_bytes(stored),
                )
                &&& plain_in(stored, secret) is Some ==> r->Err_0@ == refusal
            }
        }),
{
    if owner is Some {
        lemma_unopened(hex_bytes(owner->0.ehlo_secret@), config.database_encrypt_secret@);
    }
}

// ---------------------------------------------------------------------------
// Passwords
// ---------------------------------------------------------------------------

/// A stored password is sealed anew for a device. What is wrong with the stored
/// text comes before what is wrong with the device.
pub proof fn law_passwords_are_sealed_for_the_device(
    stored: &str,
    device: Identity,
    config: Config,
    r: AppResult<String>,
)
    requires
        call_ensures(encrypt_for_client, (stored, &device, &config), r),
    ensures
        ({
            let secret = config.database_encrypt_secret@;
            let key = key_between(device, secret);
            let plain = plain_in(stored@, secret);
            &&& r is Ok <==> plain is Some && key is Some && plain->0.len() <= 68_719_476_736
            &&& r matches Ok(text) ==> plain_in(text@, key->0) == plain && drawn_nonce(
                hex_bytes(text@).take(12),
            )
            &&& !is_hex(stored@) ==> r->Err_0@ == Failure::Validation("invalid hex"@)
            &&& is_hex(stored@) && plain is None ==> r->Err_0@ == unopened(hex_bytes(stored@))
            &&& plain is Some && key is None ==> r->Err_0@ == keyless(device, secret)
        }),
{
    let secret = config.database_encrypt_secret@;
    lemma_unopened(hex_bytes(stored@), secret);
    lemma_keyless(device, secret);
    if r is Ok {
        lemma_plain(hex_bytes(r->Ok_0@), key_between(device, secret)->0);
    }
}

/// What a device sent is opened with its key, and sealed anew for the database.
/// What is wrong with the form of the text comes first, then what is wrong with
/// the device, then what is wrong with the seal.
pub proof fn law_passwords_are_received_from_the_device(
    sent: &str,
    device: Identity,
    config: Config,
    read: AppResult<Vec<u8>>,
    r: AppResult<String>,
)
    requires
        call_ensures(decrypt_from_client, (sent, &device, &config), read),
        call_ensures(receive_password, (sent, &device, &config), r),
    ensures
        ({
            let secret = config.database_encrypt_secret@;
            let key = key_between(device, secret);
            &&& read is Ok <==> key is Some && plain_in(sent@, key->0) is Some
            &&& read matches Ok(data) ==> plain_in(sent@, key->0) == Some(data@)
            &&& r is Ok <==> read is Ok && read->Ok_0@.len() <= 68_719_476_736
            &&& r matches Ok(text) ==> plain_in(text@, secret) == Some(read->Ok_0@) && drawn_nonce(
                hex_bytes(text@).take(12),
            )
            &&& !is_hex(sent@) ==> read->Err_0@ == Failure::Validation("invalid hex"@)
            &&& is_hex(sent@) && key is None ==> read->Err_0@ == keyless(device, secret)
            &&& is_hex(sent@) && key is Some && read is Err ==> read->Err_0@ == unopened(
                hex_bytes(sent@),
            )
            &&& read is Err ==> r->Err_0@ == read->Err_0@
        }),
{
    let secret = config.database_encrypt_secret@;
    lemma_keyless(device, secret);
    if key_between(device, secret) is Some {
        lemma_unopened(hex_bytes(sent@), key_between(device, secret)->0);
    }
    if r is Ok {
        lemma_plain(hex_bytes(r->Ok_0@), secret);
    }
}

/// A group is one's own exactly if it is there and belongs to the account; any
/// other one is answered like none.
pub proof fn law_own_groups_are_told_apart(
    group: Option<crate::domain::group::Group>,
    owner: &str,
    r: AppResult<crate::domain::group::Group>,
)
    requires
        call_ensures(own_group, (group, owner), r),
    ensures
        r is Ok <==> group is Some && group->0.user_id@ == owner@,
        r matches Ok(g) ==> g == group->0,
        r matches Err(e) ==> e@ == Failure::Unauthorized("unauthorized"@),
{
}

} // verus!
