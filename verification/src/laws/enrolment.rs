//! How a device gets to act for an account, request by request: greeting,
//! signing up and in, refreshing, re-signing, and the check of its session.

use vstd::prelude::*;
use vstd::utf8::{decode_utf8, encode_utf8, valid_utf8};

use crate::chance::{drawn_bytes, drawn_nonce, drawn_uuid};
use crate::config::Config;
use crate::crypto::keys::clamped;
use crate::domain::identity::{identity_stored, Identity, IdentityCommand};
use crate::domain::user::{user_stored, User, UserKey};
use crate::error::{AppResult, Failure};
use crate::laws::plain::{key_between, lemma_key, lemma_plain, plain_in, plain_of};
use crate::outside::{hex_bytes, hex_text, is_hex, opt_text, sha256_value, x25519_value};
use crate::routes::greet::{
    greet_handler, GreetInsert, GreetLookup, GreetRequest, GreetResponse, Insertion,
};
use crate::routes::refresh::{
    refresh_handler, RefreshLookup, RefreshOwner, RefreshRequest, RefreshResponse, RefreshUpdate,
};
use crate::routes::resign::{
    resign_handler, ResignLookup, ResignOwner, ResignRequest, ResignUpdate,
};
use crate::routes::signin::{
    sign_in_handler, sign_up_handler, LinkDevice, SignInLookup, SignInName, SignRequest,
    SignResponse, SignUpCreate, SignUpLookup, SignUpName,
};
use crate::routes::verify::verify_handler;
use crate::routes::{validate_auth, AuthLookup, AuthOwner, ClientIp, Session};

verus! {

/// The one answer to whoever cannot prove who is asking.
pub open spec fn generic(f: Failure) -> bool {
    f == Failure::Unauthorized("unauthorized"@)
}

/// How a token is stored: as the hexadecimal text of its SHA-256 digest.
pub open spec fn stored_token(token: Seq<char>) -> Seq<char> {
    hex_text(sha256_value(encode_utf8(token)))
}

// ---------------------------------------------------------------------------
// Greeting
// ---------------------------------------------------------------------------

/// A greeting is taken if its key is sixty-four hexadecimal digits. It looks for
/// a device at the address that it came from and keeps key and address.
pub proof fn law_greeting_takes_a_key_of_32_bytes(
    req: GreetRequest,
    ip: ClientIp,
    r: AppResult<GreetLookup>,
)
    requires
        call_ensures(greet_handler, (&req, ip), r),
    ensures
        r is Ok <==> is_hex(req.pub_key@) && req.pub_key@.len() == 64,
        r matches Ok(step) ==> {
            &&& step.client_public_key@ == hex_bytes(req.pub_key@)
            &&& step.key is Ip
            &&& step.key->Ip_0@ == ip.0@
            &&& step.ip@ == ip.0@
        },
        r matches Err(e) ==> e@ is Validation,
{
}

/// A greeting from an address without a device stores one at the end of the
/// table: at that address, with the key that it sent, with no account and no
/// token, not confirmed. Its private key is stored under the secret of the
/// database; the answer is the public key that belongs to it.
pub proof fn law_greeting_stores_a_waiting_device(
    step: GreetLookup,
    existing: Option<Identity>,
    config: Config,
    r: AppResult<GreetInsert>,
    before: Seq<Identity>,
    after: Seq<Identity>,
)
    requires
        call_ensures(GreetLookup::found, (step, existing, &config), r),
        r is Ok ==> r->Ok_0.command.effect(before, after),
    ensures
        r is Ok <==> existing is None,
        r matches Err(e) ==> e@ == Failure::PreconditionFailed("precondition failed"@),
        r is Ok ==> {
            let row = after.last();
            let private = plain_of(row.server_private_key@, config.database_encrypt_secret@);
            &&& after == before.push(row)
            &&& drawn_uuid(row.uuid@)
            &&& row.ip_address@ == step.ip@
            &&& row.client_public_key@ == step.client_public_key@
            &&& row.user_id is None
            &&& row.device_token is None
            &&& !row.is_confirmed
            &&& row.extra@ == seq!['{', '}']
            &&& private is Some
            &&& private->0.len() == 32
            &&& drawn_nonce(row.server_private_key@.take(12))
            &&& exists|raw: Seq<u8>| #[trigger]
                drawn_bytes(raw) && raw.len() == 32 && private->0.subrange(1, 31) == raw.subrange(
                    1,
                    31,
                )
            &&& row.server_public_key@ == x25519_value(
                private->0,
                Seq::new(32, |i: int| if i == 0 { 9u8 } else { 0u8 }),
            )
            &&& r->Ok_0.response.server_public_key@ == hex_text(row.server_public_key@)
        },
{
    reveal_strlit("{}");
    assert("{}"@ =~= seq!['{', '}']);
    if r is Ok {
        let row = choose|row: Identity| #[trigger]
            identity_stored(r->Ok_0.command->Insert_0, row) && after == before.push(row);
        assert(after.last() == row);
        lemma_plain(row.server_private_key@, config.database_encrypt_secret@);
        let private = plain_of(row.server_private_key@, config.database_encrypt_secret@)->0;
        let raw = choose|raw: Seq<u8>| #[trigger]
            drawn_bytes(raw) && raw.len() == 32 && private == clamped(raw);
        assert(private.subrange(1, 31) =~= raw.subrange(1, 31));
        assert(crate::outside::basepoint() =~= Seq::new(
            32,
            |i: int| if i == 0 { 9u8 } else { 0u8 },
        ));
    }
}

/// A greeting answers once its device is stored. That another one took the
/// address first is answered like a device that was there before.
pub proof fn law_greeting_answers_once_stored(
    step: GreetInsert,
    outcome: Insertion,
    r: AppResult<GreetResponse>,
)
    requires
        call_ensures(GreetInsert::stored, (step, outcome), r),
    ensures
        r is Ok <==> outcome is Stored,
        r is Ok ==> r->Ok_0.server_public_key@ == step.response.server_public_key@,
        outcome is UniqueViolation ==> r->Err_0@ == Failure::PreconditionFailed(
            "precondition failed"@,
        ),
        outcome matches Insertion::Failed(m) ==> r->Err_0@ == Failure::Database(m@),
{
}

// ---------------------------------------------------------------------------
// Signing up and in
// ---------------------------------------------------------------------------

/// Whether a request holds a name and a secret, both sealed under a key.
pub open spec fn signs(req: SignRequest, key: Seq<u8>, name: Seq<char>, ehlo: Seq<u8>) -> bool {
    &&& plain_in(req.name@, key) is Some
    &&& valid_utf8(plain_in(req.name@, key)->0)
    &&& decode_utf8(plain_in(req.name@, key)->0) == name
    &&& plain_in(req.ehlo@, key) == Some(ehlo)
}

/// Signing up looks for the device at the address of the request and reads the
/// name and the secret that this device sealed. A name of one to sixty-four
/// characters is taken, and the secret goes on under the secret of the database.
pub proof fn law_sign_up_reads_name_and_secret(
    request: SignRequest,
    ip: ClientIp,
    config: Config,
    first: SignUpLookup,
    device: Option<Identity>,
    r: AppResult<SignUpName>,
    key: Seq<u8>,
    name: Seq<char>,
    ehlo: Seq<u8>,
)
    requires
        call_ensures(sign_up_handler, (request, &ip), first),
        call_ensures(SignUpLookup::found, (first, device, &config), r),
        device is Some ==> key_between(device->0, config.database_encrypt_secret@) == Some(key)
            && signs(request, key, name, ehlo) && ehlo.len() <= 68_719_476_736,
    ensures
        first.key is Ip,
        first.key->Ip_0@ == ip.0@,
        device is None ==> r is Err && generic(r->Err_0@),
        device is Some ==> (r is Ok <==> 1 <= name.len() <= 64),
        device is Some && r is Err ==> r->Err_0@ is Validation,
        r is Ok ==> {
            &&& r->Ok_0.name@ == name
            &&& r->Ok_0.key is Name
            &&& r->Ok_0.key->Name_0@ == name
            &&& r->Ok_0.device@ == device->0.uuid@
            &&& plain_in(r->Ok_0.ehlo_secret@, config.database_encrypt_secret@) == Some(ehlo)
        },
{
    let secret = config.database_encrypt_secret@;
    if device is Some {
        lemma_key(device->0, secret);
        lemma_plain(hex_bytes(request.name@), key);
        lemma_plain(hex_bytes(request.ehlo@), key);
    }
    if r is Ok {
        lemma_plain(hex_bytes(r->Ok_0.ehlo_secret@), secret);
    }
}

/// A name that is free gets an account that is not deleted, with the name and
/// the sealed secret that were read; a name that is taken gets none.
pub proof fn law_sign_up_makes_the_account(
    step: SignUpName,
    existing: Option<User>,
    r: AppResult<SignUpCreate>,
    before: Seq<User>,
    after: Seq<User>,
)
    requires
        call_ensures(SignUpName::found, (step, existing), r),
        r is Ok ==> r->Ok_0.command.effect(before, after),
    ensures
        r is Ok <==> existing is None,
        r matches Err(e) ==> e@ == Failure::Conflict("name already taken"@),
        r is Ok ==> {
            &&& after == before.push(after.last())
            &&& drawn_uuid(after.last().uuid@)
            &&& after.last().name@ == step.name@
            &&& after.last().ehlo_secret@ == step.ehlo_secret@
            &&& !after.last().is_deleted
            &&& after.last().extra@ == seq!['{', '}']
            &&& r->Ok_0.device@ == step.device@
        },
{
    reveal_strlit("{}");
    assert("{}"@ =~= seq!['{', '}']);
    if r is Ok {
        let row = choose|row: User| #[trigger]
            user_stored(r->Ok_0.command->Insert_0, row) && after == before.push(row);
        assert(after.last() == row);
    }
}

/// Whether a command binds a device to an account under a token, waiting for
/// approval, and changes nothing else but the time of change.
pub open spec fn binds(
    command: IdentityCommand,
    before: Seq<Identity>,
    after: Seq<Identity>,
    device: Seq<char>,
    account: Seq<char>,
    token: Seq<char>,
) -> bool {
    command.effect(before, after) ==> after.len() == before.len() && forall|i: int|
        0 <= i < before.len() ==> {
            &&& before[i].uuid@ != device ==> #[trigger] after[i] == before[i]
            &&& before[i].uuid@ == device ==> {
                &&& after[i] == (Identity {
                    user_id: after[i].user_id,
                    device_token: after[i].device_token,
                    is_confirmed: false,
                    updated_at: after[i].updated_at,
                    ..before[i]
                })
                &&& opt_text(after[i].user_id) == Some(account)
                &&& opt_text(after[i].device_token) == Some(stored_token(token))
            }
        }
}

/// Once the account is stored, the device of the request is bound to it under a
/// token that was drawn. The token is what is answered, its digest is what is
/// stored, and the device waits for approval.
pub proof fn law_sign_up_binds_the_device(
    step: SignUpCreate,
    user: User,
    link: LinkDevice,
    answer: SignResponse,
    before: Seq<Identity>,
    after: Seq<Identity>,
)
    requires
        call_ensures(SignUpCreate::created, (step, &user), link),
        call_ensures(LinkDevice::linked, (link,), answer),
    ensures
        drawn_uuid(answer.token@),
        link.command is Update,
        link.command->updated_at.given(),
        binds(link.command, before, after, step.device@, user.uuid@, answer.token@),
{
}

/// Signing in looks for the device at the address of the request and for the
/// account of the name that this device sealed.
pub proof fn law_sign_in_reads_name_and_secret(
    request: SignRequest,
    ip: ClientIp,
    config: Config,
    first: SignInLookup,
    device: Option<Identity>,
    r: AppResult<SignInName>,
    key: Seq<u8>,
    name: Seq<char>,
    ehlo: Seq<u8>,
)
    requires
        call_ensures(sign_in_handler, (request, &ip), first),
        call_ensures(SignInLookup::found, (first, device, &config), r),
        device is Some ==> key_between(device->0, config.database_encrypt_secret@) == Some(key)
            && signs(request, key, name, ehlo),
    ensures
        first.key is Ip,
        first.key->Ip_0@ == ip.0@,
        r is Ok <==> device is Some,
        r matches Err(e) ==> generic(e@),
        r is Ok ==> {
            &&& r->Ok_0.key is Name
            &&& r->Ok_0.key->Name_0@ == name
            &&& r->Ok_0.ehlo@ == ehlo
            &&& r->Ok_0.device@ == device->0.uuid@
        },
{
    if device is Some {
        lemma_key(device->0, config.database_encrypt_secret@);
        lemma_plain(hex_bytes(request.name@), key);
        lemma_plain(hex_bytes(request.ehlo@), key);
    }
}

/// Whether an account is proven: it exists, is not deleted and has that secret.
pub open spec fn proven(account: Option<User>, ehlo: Seq<u8>, secret: Seq<u8>) -> bool {
    account is Some && !account->0.is_deleted && plain_in(account->0.ehlo_secret@, secret) == Some(
        ehlo,
    )
}

/// Whether an account is stored as it should be, if there is one.
pub open spec fn sound(account: Option<User>, secret: Seq<u8>) -> bool {
    account is Some ==> plain_in(account->0.ehlo_secret@, secret) is Some
}

/// Whoever knows the secret of an account that is not deleted is signed in, and
/// nobody else: the device is bound to that account under a token that was drawn.
pub proof fn law_sign_in_takes_the_secret_of_the_account(
    step: SignInName,
    account: Option<User>,
    config: Config,
    r: AppResult<LinkDevice>,
    before: Seq<Identity>,
    after: Seq<Identity>,
)
    requires
        call_ensures(SignInName::found, (step, account, &config), r),
        sound(account, config.database_encrypt_secret@),
    ensures
        r is Ok <==> proven(account, step.ehlo@, config.database_encrypt_secret@),
        r matches Err(e) ==> generic(e@),
        r is Ok ==> {
            &&& drawn_uuid(r->Ok_0.response.token@)
            &&& r->Ok_0.command is Update
            &&& r->Ok_0.command->updated_at.given()
            &&& binds(
                r->Ok_0.command,
                before,
                after,
                step.device@,
                account->0.uuid@,
                r->Ok_0.response.token@,
            )
        },
{
    if account is Some {
        lemma_plain(hex_bytes(account->0.ehlo_secret@), config.database_encrypt_secret@);
    }
}

// ---------------------------------------------------------------------------
// Refreshing and re-signing
// ---------------------------------------------------------------------------

/// A refresh looks for the device at the address of the request. It goes on for
/// a device that sealed the token it holds and belongs to an account.
pub proof fn law_refresh_takes_the_token_held(
    request: RefreshRequest,
    ip: ClientIp,
    config: Config,
    first: RefreshLookup,
    device: Option<Identity>,
    r: AppResult<RefreshOwner>,
    key: Seq<u8>,
    token: Seq<char>,
    ehlo: Seq<u8>,
)
    requires
        call_ensures(refresh_handler, (request, &ip), first),
        call_ensures(RefreshLookup::found, (first, device, &config), r),
        device is Some ==> key_between(device->0, config.database_encrypt_secret@) == Some(key)
            && plain_in(request.token@, key) is Some && valid_utf8(
            plain_in(request.token@, key)->0,
        ) && decode_utf8(plain_in(request.token@, key)->0) == token && plain_in(request.ehlo@, key)
            == Some(ehlo),
    ensures
        first.key is Ip,
        first.key->Ip_0@ == ip.0@,
        r is Ok <==> device is Some && opt_text(device->0.device_token) == Some(
            stored_token(token),
        ) && device->0.user_id is Some,
        r matches Err(e) ==> generic(e@),
        r is Ok ==> {
            &&& r->Ok_0.key is Uuid
            &&& r->Ok_0.key->Uuid_0@ == device->0.user_id->0@
            &&& r->Ok_0.ehlo@ == ehlo
            &&& r->Ok_0.device@ == device->0.uuid@
        },
{
    if device is Some {
        lemma_key(device->0, config.database_encrypt_secret@);
        lemma_plain(hex_bytes(request.token@), key);
        lemma_plain(hex_bytes(request.ehlo@), key);
    }
}

/// A refresh that proves the account gives the device a token that was drawn:
/// the token is answered, its digest is stored, and nothing else changes but the
/// time of change.
pub proof fn law_refresh_gives_a_new_token(
    step: RefreshOwner,
    owner: Option<User>,
    config: Config,
    r: AppResult<RefreshUpdate>,
    answer: RefreshResponse,
    before: Seq<Identity>,
    after: Seq<Identity>,
    i: int,
)
    requires
        call_ensures(RefreshOwner::found, (step, owner, &config), r),
        sound(owner, config.database_encrypt_secret@),
        r is Ok ==> call_ensures(RefreshUpdate::updated, (r->Ok_0,), answer)
            && r->Ok_0.command.effect(before, after),
        0 <= i < before.len(),
    ensures
        r is Ok <==> proven(owner, step.ehlo@, config.database_encrypt_secret@),
        r matches Err(e) ==> generic(e@),
        r is Ok ==> {
            &&& drawn_uuid(answer.token@)
            &&& after.len() == before.len()
            &&& before[i].uuid@ != step.device@ ==> after[i] == before[i]
            &&& before[i].uuid@ == step.device@ ==> {
                &&& opt_text(after[i].device_token) == Some(stored_token(answer.token@))
                &&& after[i].updated_at.given()
                &&& after[i] == (Identity {
                    device_token: after[i].device_token,
                    updated_at: after[i].updated_at,
                    ..before[i]
                })
            }
        },
{
    if owner is Some {
        lemma_plain(hex_bytes(owner->0.ehlo_secret@), config.database_encrypt_secret@);
    }
}

/// Re-signing looks for the device that holds the token of the request, which is
/// sent in hexadecimal.
pub proof fn law_resign_looks_for_the_token(
    request: ResignRequest,
    r: AppResult<ResignLookup>,
)
    requires
        call_ensures(resign_handler, (&request,), r),
    ensures
        r is Ok <==> is_hex(request.token@) && is_hex(request.ehlo@) && valid_utf8(
            hex_bytes(request.token@),
        ),
        r matches Ok(step) ==> {
            &&& step.key is DeviceToken
            &&& step.key->DeviceToken_0@ == stored_token(decode_utf8(hex_bytes(request.token@)))
            &&& step.ehlo_sealed@ == hex_bytes(request.ehlo@)
        },
        r matches Err(e) ==> e@ is Validation,
{
}

/// Re-signing reads the secret that the device sealed and goes on for a device
/// that belongs to an account.
pub proof fn law_resign_reads_the_secret(
    step: ResignLookup,
    device: Option<Identity>,
    config: Config,
    r: AppResult<ResignOwner>,
    key: Seq<u8>,
    ehlo: Seq<u8>,
)
    requires
        call_ensures(ResignLookup::found, (step, device, &config), r),
        device is Some ==> key_between(device->0, config.database_encrypt_secret@) == Some(key)
            && plain_of(step.ehlo_sealed@, key) == Some(ehlo),
    ensures
        r is Ok <==> device is Some && device->0.user_id is Some,
        r matches Err(e) ==> generic(e@),
        r is Ok ==> {
            &&& r->Ok_0.key is Uuid
            &&& r->Ok_0.key->Uuid_0@ == device->0.user_id->0@
            &&& r->Ok_0.ehlo@ == ehlo
            &&& r->Ok_0.device@ == device->0.uuid@
        },
{
    if device is Some {
        lemma_key(device->0, config.database_encrypt_secret@);
        lemma_plain(step.ehlo_sealed@, key);
    }
}

/// Re-signing that proves the account moves the device to the address of the
/// request, where it waits for approval. Nothing else changes but the time of
/// change.
pub proof fn law_resign_moves_the_device(
    step: ResignOwner,
    owner: Option<User>,
    ip: ClientIp,
    config: Config,
    r: AppResult<ResignUpdate>,
    before: Seq<Identity>,
    after: Seq<Identity>,
    i: int,
)
    requires
        call_ensures(ResignOwner::found, (step, owner, &ip, &config), r),
        sound(owner, config.database_encrypt_secret@),
        r is Ok ==> r->Ok_0.command.effect(before, after),
        0 <= i < before.len(),
    ensures
        r is Ok <==> proven(owner, step.ehlo@, config.database_encrypt_secret@),
        r matches Err(e) ==> generic(e@),
        r is Ok ==> {
            &&& after.len() == before.len()
            &&& before[i].uuid@ != step.device@ ==> after[i] == before[i]
            &&& before[i].uuid@ == step.device@ ==> {
                &&& after[i].ip_address@ == ip.0@
                &&& after[i].updated_at.given()
                &&& after[i] == (Identity {
                    ip_address: after[i].ip_address,
                    is_confirmed: false,
                    updated_at: after[i].updated_at,
                    ..before[i]
                })
            }
        },
{
    if owner is Some {
        lemma_plain(hex_bytes(owner->0.ehlo_secret@), config.database_encrypt_secret@);
    }
}

// ---------------------------------------------------------------------------
// The session
// ---------------------------------------------------------------------------

/// A request is taken for the account of a device exactly if it carries the
/// token that the device holds, comes from the address of the device, the device
/// is confirmed and belongs to an account, and the account is not deleted.
/// Whatever is missing, the answer is the same.
pub proof fn law_session_takes_a_confirmed_device(
    token: Option<&str>,
    ip: ClientIp,
    first: AppResult<AuthLookup>,
    device: Option<Identity>,
    second: AppResult<AuthOwner>,
    owner: Option<User>,
    third: AppResult<Session>,
)
    requires
        call_ensures(validate_auth, (token,), first),
        first is Ok ==> call_ensures(AuthLookup::found, (first->Ok_0, device, &ip), second),
        first is Ok && second is Ok ==> call_ensures(
            AuthOwner::found,
            (second->Ok_0, owner),
            third,
        ),
    ensures
        first is Ok <==> token is Some,
        first matches Err(e) ==> generic(e@),
        first matches Ok(step) ==> step.key is DeviceToken && step.key->DeviceToken_0@
            == stored_token(token->0@),
        first is Ok ==> (second is Ok <==> device is Some && device->0.ip_address@ == ip.0@
            && device->0.is_confirmed && device->0.user_id is Some),
        first is Ok && second is Err ==> generic(second->Err_0@),
        first is Ok && second is Ok ==> {
            &&& second->Ok_0.lookup() is Uuid
            &&& second->Ok_0.lookup()->Uuid_0@ == device->0.user_id->0@
            &&& third is Ok <==> owner is Some && !owner->0.is_deleted
            &&& third is Err ==> generic(third->Err_0@)
            &&& third is Ok ==> third->Ok_0.identity() == device->0 && third->Ok_0.owner()
                == device->0.user_id->0@
        },
{
}

/// A session gives out its device and its account, and the step before it how
/// the account is looked for.
pub proof fn law_a_session_is_of_its_device(
    session: Session,
    device: &Identity,
    account: &String,
    step: AuthOwner,
    key: &UserKey,
)
    requires
        call_ensures(Session::device, (&session,), device),
        call_ensures(Session::user_id, (&session,), account),
        call_ensures(AuthOwner::key, (&step,), key),
    ensures
        *device == session.identity(),
        account@ == session.owner(),
        device.user_id is Some && device.user_id->0@ == account@,
        *key == step.lookup(),
{
}

/// A session is verified exactly if its account is there and not deleted.
pub proof fn law_verify_answers_for_the_account(
    step: AuthOwner,
    owner: Option<User>,
    r: AppResult<()>,
)
    requires
        call_ensures(verify_handler, (step, owner), r),
    ensures
        r is Ok <==> owner is Some && !owner->0.is_deleted,
        r matches Err(e) ==> generic(e@),
{
}

} // verus!
