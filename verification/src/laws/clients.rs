//! What a device sends is what the server reads.

use vstd::prelude::*;
use vstd::utf8::{encode_utf8, encode_utf8_decode_utf8, encode_utf8_valid_utf8};

use crate::chance::drawn_nonce;
use crate::client::{
    after_sign_up, derive_key, generate_client_keypair, greet_request, leftovers, leftovers_of,
    open_hex, refresh_request, resign_request, seal_hex, sign_request, SignUpNext,
};
use crate::console::flows::RawIdentity;
use crate::crypto::keys::{drawn_keys, IdentityKeys};
use crate::error::AppResult;
use crate::laws::plain::{lemma_plain, plain_in};
use crate::outside::{hex_bytes, is_hex, opt_text, x25519_value};
use crate::routes::greet::{greet_handler, GreetLookup, GreetRequest};
use crate::routes::refresh::RefreshRequest;
use crate::routes::resign::{resign_handler, ResignLookup, ResignRequest};
use crate::routes::signin::SignRequest;
use crate::routes::ClientIp;
use crate::text::law_hex_round_trip;

verus! {

/// The key that a device greets with is the key that the server keeps.
pub proof fn law_greeting_reaches_the_server(
    keys: IdentityKeys,
    req: GreetRequest,
    ip: ClientIp,
    r: AppResult<GreetLookup>,
)
    requires
        call_ensures(generate_client_keypair, (), keys),
        call_ensures(greet_request, (&keys.server_public_key,), req),
        call_ensures(greet_handler, (&req, ip), r),
    ensures
        drawn_keys(keys),
        r is Ok,
        r->Ok_0.client_public_key@ == keys.server_public_key@,
        r->Ok_0.ip@ == ip.0@,
{
    law_hex_round_trip(keys.server_public_key@);
}

/// A device derives its key from its own private key and the public key that
/// the server answered in sixty-four hexadecimal digits.
pub proof fn law_device_derives_its_key(
    private: Vec<u8>,
    answer: &str,
    r: AppResult<[u8; 32]>,
)
    requires
        call_ensures(derive_key, (&private, answer), r),
    ensures
        r is Ok <==> private@.len() == 32 && is_hex(answer@) && hex_bytes(answer@).len() == 32,
        r matches Ok(key) ==> key@ == x25519_value(private@, hex_bytes(answer@)),
        r matches Err(e) ==> (e@ is Validation <==> !is_hex(answer@)),
{
}

/// What is sealed in hexadecimal opens to what it was made of.
pub proof fn law_what_is_sent_sealed_is_read(
    data: &[u8],
    key: &[u8; 32],
    sealed: AppResult<String>,
    text: &str,
    r: AppResult<Vec<u8>>,
)
    requires
        call_ensures(seal_hex, (data, key), sealed),
        sealed is Ok ==> text@ == sealed->Ok_0@ && call_ensures(open_hex, (text, key), r),
    ensures
        sealed is Ok <==> data@.len() <= 68_719_476_736,
        sealed is Ok ==> drawn_nonce(hex_bytes(text@).take(12)),
        sealed is Ok ==> r is Ok && r->Ok_0@ == data@,
{
}

/// A text opens exactly if it is hexadecimal and holds what was sealed under the
/// key.
pub proof fn law_sealed_text_is_opened(text: &str, key: &[u8; 32], r: AppResult<Vec<u8>>)
    requires
        call_ensures(open_hex, (text, key), r),
    ensures
        r is Ok <==> plain_in(text@, key@) is Some,
        r matches Ok(data) ==> plain_in(text@, key@) == Some(data@),
        r matches Err(e) ==> if is_hex(text@) {
            e@ is Crypto
        } else {
            e@ is Validation
        },
{
    lemma_plain(hex_bytes(text@), key@);
}

/// A device seals its name and its secret, each where it belongs.
pub proof fn law_sign_request_holds_name_and_secret(
    name: &str,
    ehlo: &[u8],
    key: &[u8; 32],
    r: AppResult<SignRequest>,
)
    requires
        call_ensures(sign_request, (name, ehlo, key), r),
    ensures
        r is Ok <==> encode_utf8(name@).len() <= 68_719_476_736 && ehlo@.len() <= 68_719_476_736,
        r matches Ok(request) ==> {
            &&& plain_in(request.name@, key@) == Some(encode_utf8(name@))
            &&& plain_in(request.ehlo@, key@) == Some(ehlo@)
            &&& drawn_nonce(hex_bytes(request.name@).take(12))
            &&& drawn_nonce(hex_bytes(request.ehlo@).take(12))
        },
        r matches Err(e) ==> e@ is Crypto,
{
    if r is Ok {
        lemma_plain(hex_bytes(r->Ok_0.name@), key@);
        lemma_plain(hex_bytes(r->Ok_0.ehlo@), key@);
    }
}

/// A device that refreshes seals its token and its secret, each where it
/// belongs.
pub proof fn law_refresh_request_holds_token_and_secret(
    token: &str,
    ehlo: &[u8],
    key: &[u8; 32],
    r: AppResult<RefreshRequest>,
)
    requires
        call_ensures(refresh_request, (token, ehlo, key), r),
    ensures
        r is Ok <==> encode_utf8(token@).len() <= 68_719_476_736 && ehlo@.len() <= 68_719_476_736,
        r matches Ok(request) ==> {
            &&& plain_in(request.token@, key@) == Some(encode_utf8(token@))
            &&& plain_in(request.ehlo@, key@) == Some(ehlo@)
            &&& drawn_nonce(hex_bytes(request.token@).take(12))
            &&& drawn_nonce(hex_bytes(request.ehlo@).take(12))
        },
        r matches Err(e) ==> e@ is Crypto,
{
    if r is Ok {
        lemma_plain(hex_bytes(r->Ok_0.token@), key@);
        lemma_plain(hex_bytes(r->Ok_0.ehlo@), key@);
    }
}

/// A device that re-signs sends its token in hexadecimal and seals its secret;
/// the server takes the request and looks for the digest of that token.
pub proof fn law_resign_request_holds_token_and_secret(
    token: &str,
    ehlo: &[u8],
    key: &[u8; 32],
    r: AppResult<ResignRequest>,
    step: AppResult<ResignLookup>,
)
    requires
        call_ensures(resign_request, (token, ehlo, key), r),
        r is Ok ==> call_ensures(resign_handler, (&r->Ok_0,), step),
    ensures
        r is Ok <==> ehlo@.len() <= 68_719_476_736,
        r matches Ok(request) ==> {
            &&& is_hex(request.token@)
            &&& hex_bytes(request.token@) == encode_utf8(token@)
            &&& plain_in(request.ehlo@, key@) == Some(ehlo@)
            &&& drawn_nonce(hex_bytes(request.ehlo@).take(12))
            &&& step is Ok
            &&& step->Ok_0.key is DeviceToken
            &&& step->Ok_0.key->DeviceToken_0@ == crate::laws::enrolment::stored_token(token@)
            &&& step->Ok_0.ehlo_sealed@ == hex_bytes(request.ehlo@)
        },
        r matches Err(e) ==> e@ is Crypto,
{
    if r is Ok {
        law_hex_round_trip(encode_utf8(token@));
        encode_utf8_valid_utf8(token@);
        encode_utf8_decode_utf8(token@);
        lemma_plain(hex_bytes(r->Ok_0.ehlo@), key@);
    }
}

/// A device that signed up is enrolled, one whose name is taken signs in, and
/// any other answer is a failure.
pub proof fn law_a_taken_name_is_signed_in_to(status: u16, r: SignUpNext)
    requires
        call_ensures(after_sign_up, (status,), r),
    ensures
        r is Enrolled <==> status == 200,
        r is SignIn <==> status == 409,
{
}

/// The devices that are left over for an account are those that belong to it:
/// with a device more that does, its identifier is the last one more; with any
/// other device, they are the same.
pub proof fn law_leftovers_are_those_of_the_account(
    devices: Vec<RawIdentity>,
    more: Vec<RawIdentity>,
    device: RawIdentity,
    account: &str,
    r: Vec<String>,
    grown: Vec<String>,
    i: int,
)
    requires
        call_ensures(leftovers, (&devices, account), r),
        call_ensures(leftovers, (&more, account), grown),
        more@ == devices@.push(device),
    ensures
        devices@.len() == 0 ==> r@.len() == 0,
        0 <= i < r@.len() ==> i < grown@.len() && grown@[i]@ == r@[i]@,
        ({
            if opt_text(device.user_id) == Some(account@) && device.uuid is Some {
                grown@.len() == r@.len() + 1 && grown@.last()@ == device.uuid->0@
            } else {
                grown@.len() == r@.len()
            }
        }),
{
    reveal(Seq::filter);
    assert(more@.drop_last() =~= devices@);
    let old = leftovers_of(devices@, account@);
    let new = leftovers_of(more@, account@);
    if 0 <= i < r@.len() {
        assert(Some(r@[i]@) == opt_text(old[i].uuid));
        assert(Some(grown@[i]@) == opt_text(new[i].uuid));
    }
    if grown@.len() > 0 {
        let last = grown@.len() - 1;
        assert(Some(grown@[last]@) == opt_text(new[last].uuid));
    }
}

} // verus!
