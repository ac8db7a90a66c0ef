//! Calls into other crates and into the parts of the standard library that
//! have no contract yet. Each item says what its contract claims; nothing here
//! is proved.

use aes_gcm::aead::{Aead, AeadCore, KeyInit};
use sha2::Digest;
use subtle::ConstantTimeEq;
use vstd::prelude::*;
use vstd::utf8::{decode_utf8, encode_utf8, valid_utf8};

verus! {

/// The value of an optional byte vector.
pub open spec fn opt_bytes(v: Option<Vec<u8>>) -> Option<Seq<u8>> {
    match v {
        Some(b) => Some(b@),
        None => None,
    }
}

/// The value of an optional string.
pub open spec fn opt_text(v: Option<String>) -> Option<Seq<char>> {
    match v {
        Some(s) => Some(s@),
        None => None,
    }
}

// ---------------------------------------------------------------------------
// Hexadecimal text
// ---------------------------------------------------------------------------

/// The lower case digit for a value below sixteen.
pub open spec fn hex_digit(n: int) -> char {
    if n < 10 {
        (48 + n) as char
    } else {
        (87 + n) as char
    }
}

/// Two lower case digits per byte, the high half first.
pub open spec fn hex_text(data: Seq<u8>) -> Seq<char> {
    Seq::new(
        2 * data.len(),
        |i: int|
            if i % 2 == 0 {
                hex_digit(data[i / 2] as int / 16)
            } else {
                hex_digit(data[i / 2] as int % 16)
            },
    )
}

/// Whether a character is a hexadecimal digit of either case.
pub open spec fn is_hex_digit(c: char) -> bool {
    ||| '0' <= c <= '9'
    ||| 'a' <= c <= 'f'
    ||| 'A' <= c <= 'F'
}

/// The value of a hexadecimal digit.
pub open spec fn hex_value(c: char) -> int {
    if '0' <= c <= '9' {
        c as int - 48
    } else if 'a' <= c <= 'f' {
        c as int - 87
    } else {
        c as int - 55
    }
}

/// Whether a text is made of pairs of hexadecimal digits.
pub open spec fn is_hex(s: Seq<char>) -> bool {
    &&& s.len() % 2 == 0
    &&& forall|i: int| 0 <= i < s.len() ==> is_hex_digit(#[trigger] s[i])
}

/// The bytes that pairs of hexadecimal digits stand for.
pub open spec fn hex_bytes(s: Seq<char>) -> Seq<u8> {
    Seq::new(
        s.len() / 2,
        |i: int| (16 * hex_value(s[2 * i]) + hex_value(s[2 * i + 1])) as u8,
    )
}

/// `hex::encode`: claims the lower case text of the bytes.
#[verifier::external_body]
pub(crate) fn hex_encode(data: &[u8]) -> (r: String)
    ensures
        r@ == hex_text(data@),
{
    hex::encode(data)
}

/// `hex::decode`: claims that it succeeds on pairs of digits of either case and
/// on nothing else, and that it then gives the bytes they stand for.
#[verifier::external_body]
pub(crate) fn hex_decode(text: &str) -> (r: Option<Vec<u8>>)
    ensures
        r is Some <==> is_hex(text@),
        r matches Some(b) ==> b@ == hex_bytes(text@),
{
    hex::decode(text).ok()
}

// ---------------------------------------------------------------------------
// X25519
// ---------------------------------------------------------------------------

/// What `x25519_dalek::x25519` returns for a scalar and a point.
pub uninterp spec fn x25519_value(scalar: Seq<u8>, point: Seq<u8>) -> Seq<u8>;

/// The base point: the byte nine, then thirty-one zero bytes.
pub open spec fn basepoint() -> Seq<u8> {
    Seq::new(32, |i: int| if i == 0 { 9u8 } else { 0u8 })
}

/// The public key of a private key.
pub open spec fn public_key(private: Seq<u8>) -> Seq<u8> {
    x25519_value(private, basepoint())
}

/// `x25519_dalek::x25519`, the function of RFC 7748. Names its result, and
/// claims the agreement that its documentation shows: where the point is the
/// public key of some other private key, that key's holder computes the same
/// value from the public key of this scalar.
#[verifier::external_body]
pub(crate) fn x25519_mul(scalar: [u8; 32], point: [u8; 32]) -> (r: [u8; 32])
    ensures
        r@ == x25519_value(scalar@, point@),
        forall|other: Seq<u8>|
            other.len() == 32 && point@ == #[trigger] public_key(other) ==> r@ == x25519_value(
                other,
                public_key(scalar@),
            ),
{
    x25519_dalek::x25519(scalar, point)
}

/// `rand::random` for thirty-two bytes. Claims nothing of the bytes: they are
/// left to chance.
#[verifier::external_body]
pub(crate) fn random_bytes() -> [u8; 32] {
    rand::random()
}

// ---------------------------------------------------------------------------
// AES-256-GCM
// ---------------------------------------------------------------------------

/// The longest message that `aes_gcm` seals, in bytes.
pub const MAX_MESSAGE_LEN: u64 = 68719476736;

/// What AES-256-GCM makes of a plaintext: the ciphertext with its tag behind.
pub uninterp spec fn aes_gcm_sealed(key: Seq<u8>, nonce: Seq<u8>, plaintext: Seq<u8>) -> Seq<u8>;

/// What AES-256-GCM recovers from a ciphertext with its tag, if the tag holds.
pub uninterp spec fn aes_gcm_opened(
    key: Seq<u8>,
    nonce: Seq<u8>,
    ciphertext: Seq<u8>,
) -> Option<Seq<u8>>;

/// `Aes256Gcm::encrypt` of `aes_gcm`, without associated data. Names the
/// result, and claims that sealing succeeds up to the longest message, that the
/// ciphertext is sixteen bytes longer than the plaintext, and that opening it
/// under the same key and nonce gives the plaintext back.
#[verifier::external_body]
pub(crate) fn aes_gcm_seal(key: &[u8; 32], nonce: &[u8; 12], plaintext: &[u8]) -> (r: Option<
    Vec<u8>,
>)
    requires
        plaintext@.len() <= MAX_MESSAGE_LEN,
    ensures
        r is Some,
        r->0@ == aes_gcm_sealed(key@, nonce@, plaintext@),
        r->0@.len() == plaintext@.len() + 16,
        aes_gcm_opened(key@, nonce@, r->0@) == Some(plaintext@),
{
    let cipher = aes_gcm::Aes256Gcm::new(aes_gcm::Key::<aes_gcm::Aes256Gcm>::from_slice(key));
    cipher.encrypt(aes_gcm::Nonce::from_slice(nonce), plaintext).ok()
}

/// `Aes256Gcm::decrypt` of `aes_gcm`, without associated data. Names the
/// result, which is absent where the tag does not hold or the ciphertext is too
/// long, and claims that the plaintext is sixteen bytes shorter than the
/// ciphertext.
#[verifier::external_body]
pub(crate) fn aes_gcm_open(key: &[u8; 32], nonce: &[u8; 12], ciphertext: &[u8]) -> (r: Option<
    Vec<u8>,
>)
    ensures
        opt_bytes(r) == aes_gcm_opened(key@, nonce@, ciphertext@),
        r matches Some(p) ==> p@.len() + 16 == ciphertext@.len(),
{
    let cipher = aes_gcm::Aes256Gcm::new(aes_gcm::Key::<aes_gcm::Aes256Gcm>::from_slice(key));
    cipher.decrypt(aes_gcm::Nonce::from_slice(nonce), ciphertext).ok()
}

/// `Aes256Gcm::generate_nonce` with the generator of the operating system.
/// Claims nothing of the bytes: they are left to chance.
#[verifier::external_body]
pub(crate) fn random_nonce() -> [u8; 12] {
    aes_gcm::Aes256Gcm::generate_nonce(&mut aes_gcm::aead::OsRng).into()
}

// ---------------------------------------------------------------------------
// Digests, comparison, identifiers
// ---------------------------------------------------------------------------

/// The SHA-256 digest of a byte string.
pub uninterp spec fn sha256_value(data: Seq<u8>) -> Seq<u8>;

/// `Sha256::digest` of `sha2`. Names the result, and claims its thirty-two
/// bytes.
#[verifier::external_body]
pub(crate) fn sha256(data: &[u8]) -> (r: Vec<u8>)
    ensures
        r@ == sha256_value(data@),
        r@.len() == 32,
{
    sha2::Sha256::digest(data).to_vec()
}

/// `ConstantTimeEq::ct_ne` of `subtle`: claims that it tells whether two byte
/// strings differ.
#[verifier::external_body]
pub(crate) fn ct_ne(a: &[u8], b: &[u8]) -> (r: bool)
    ensures
        r == (a@ != b@),
{
    a.ct_ne(b).into()
}

/// Whether a text is a version 4 UUID in its hyphenated lower case form.
pub open spec fn is_uuid_v4(s: Seq<char>) -> bool {
    &&& s.len() == 36
    &&& forall|i: int|
        0 <= i < 36 ==> if i == 8 || i == 13 || i == 18 || i == 23 {
            #[trigger] s[i] == '-'
        } else {
            '0' <= s[i] <= '9' || 'a' <= s[i] <= 'f'
        }
    &&& s[14] == '4'
    &&& s[19] == '8' || s[19] == '9' || s[19] == 'a' || s[19] == 'b'
}

/// `Uuid::new_v4` of `uuid`, written out. Claims the form of the text; its
/// random digits are left to chance.
#[verifier::external_body]
pub(crate) fn new_uuid() -> (r: String)
    ensures
        is_uuid_v4(r@),
{
    uuid::Uuid::new_v4().to_string()
}

// ---------------------------------------------------------------------------
// Time
// ---------------------------------------------------------------------------

/// The first second that `chrono` can date, counted from the Unix epoch.
pub const MIN_SECS: i64 = -8334601228800;

/// The last second that `chrono` can date, counted from the Unix epoch.
pub const MAX_SECS: i64 = 8210266876799;

/// Whether `chrono` can date a second, with the nanoseconds behind it.
pub open spec fn datable(secs: int, nanos: int) -> bool {
    MIN_SECS <= secs <= MAX_SECS && 0 <= nanos < 1_000_000_000
}

/// How `chrono` writes a moment of UTC without its zone.
pub uninterp spec fn datetime_text(secs: i64, nanos: u32) -> Seq<char>;

/// `NaiveDateTime::to_string` of `chrono`. Names the result.
#[verifier::external_body]
pub(crate) fn naive_datetime_text(secs: i64, nanos: u32) -> (r: String)
    requires
        datable(secs as int, nanos as int),
    ensures
        r@ == datetime_text(secs, nanos),
{
    chrono::DateTime::from_timestamp(secs, nanos).unwrap().naive_utc().to_string()
}

/// How `chrono` writes a moment by the pattern `%Y-%m-%d %H:%M:%S UTC`.
pub uninterp spec fn datetime_utc_text(secs: i64, nanos: u32) -> Seq<char>;

/// `DateTime::format` of `chrono` with the pattern above. Names the result.
#[verifier::external_body]
pub(crate) fn utc_datetime_text(secs: i64, nanos: u32) -> (r: String)
    requires
        datable(secs as int, nanos as int),
    ensures
        r@ == datetime_utc_text(secs, nanos),
{
    let moment = chrono::DateTime::from_timestamp(secs, nanos).unwrap();
    moment.format("%Y-%m-%d %H:%M:%S UTC").to_string()
}

/// `Utc::now` of `chrono`, as seconds since the Unix epoch and the nanoseconds
/// behind them. Claims that the moment can be dated; which one it is depends on
/// the clock.
#[verifier::external_body]
pub(crate) fn utc_clock() -> (r: (i64, u32))
    ensures
        datable(r.0 as int, r.1 as int),
{
    let now = chrono::Utc::now();
    (now.timestamp(), now.timestamp_subsec_nanos())
}

// ---------------------------------------------------------------------------
// HTTP
// ---------------------------------------------------------------------------

/// Whether a byte may stand in the value of an HTTP header.
pub open spec fn header_byte(b: u8) -> bool {
    b == 9 || (b >= 32 && b != 127)
}

/// Whether every byte of a text may stand in the value of an HTTP header.
pub open spec fn header_text(s: Seq<char>) -> bool {
    forall|i: int| 0 <= i < encode_utf8(s).len() ==> header_byte(#[trigger] encode_utf8(s)[i])
}

/// `HeaderValue::from_str` of `axum::http`: claims that it takes a text of
/// which every byte may stand in a header, and no other.
#[verifier::external_body]
pub(crate) fn is_header_value(text: &str) -> (r: bool)
    ensures
        r == header_text(text@),
{
    axum::http::HeaderValue::from_str(text).is_ok()
}

// ---------------------------------------------------------------------------
// Archives
// ---------------------------------------------------------------------------

/// `Builder` of `tar`, which writes into a `GzEncoder` of `flate2` that keeps
/// its output in memory.
#[verifier::external_body]
pub struct Tarball {
    inner: tar::Builder<flate2::write::GzEncoder<Vec<u8>>>,
}

/// The paths and the contents that were appended to an archive, in order.
pub uninterp spec fn tar_entries(archive: Tarball) -> Seq<(Seq<char>, Seq<u8>)>;

/// The bytes that `tar` and `flate2` make of what was appended.
pub uninterp spec fn archive_bytes(entries: Seq<(Seq<char>, Seq<u8>)>) -> Seq<u8>;

/// `Builder::new` of `tar` over `GzEncoder::new` of `flate2` at the default
/// level of compression. Claims that nothing was appended yet.
#[verifier::external_body]
pub(crate) fn tar_new() -> (r: Tarball)
    ensures
        tar_entries(r) == Seq::<(Seq<char>, Seq<u8>)>::empty(),
{
    let level = flate2::Compression::default();
    Tarball { inner: tar::Builder::new(flate2::write::GzEncoder::new(Vec::new(), level)) }
}

/// Whether a character of a path stands for itself on every system.
pub open spec fn plain_char(c: char) -> bool {
    1 <= c as int <= 127 && c != '/' && c != '\\' && c != ':'
}

/// Whether a path is the name of one file and fits the header of an archive.
/// The names of the present and of the parent directory are too short for it.
pub open spec fn plain_name(path: Seq<char>) -> bool {
    &&& 3 <= path.len() <= 100
    &&& forall|i: int| 0 <= i < path.len() ==> plain_char(#[trigger] path[i])
}

/// `Builder::append` of `tar`, with a header of the GNU format that holds the
/// path and the length. Claims that the plain name of a file is taken and the
/// entry appended: what is written goes to memory, which refuses nothing. Of
/// other paths nothing is claimed.
#[verifier::external_body]
pub(crate) fn tar_append(archive: &mut Tarball, path: &str, data: &[u8]) -> (r: Result<(), String>)
    ensures
        plain_name(path@) ==> r is Ok,
        plain_name(path@) ==> tar_entries(*final(archive)) == tar_entries(*old(archive)).push(
            (path@, data@),
        ),
{
    let mut header = tar::Header::new_gnu();
    header.set_path(path).map_err(|e| e.to_string())?;
    header.set_size(data.len() as u64);
    header.set_cksum();
    archive.inner.append(&header, data).map_err(|e| e.to_string())
}

/// `Builder::into_inner` of `tar` and `GzEncoder::finish` of `flate2`. Claims
/// that they succeed, since what they write goes to memory, and names the bytes.
#[verifier::external_body]
pub(crate) fn tar_finish(archive: Tarball) -> (r: Result<Vec<u8>, String>)
    ensures
        r is Ok,
        r matches Ok(bytes) ==> bytes@ == archive_bytes(tar_entries(archive)),
{
    let encoder = archive.inner.into_inner().map_err(|e| e.to_string())?;
    encoder.finish().map_err(|e| e.to_string())
}

// ---------------------------------------------------------------------------
// Standard library
// ---------------------------------------------------------------------------

/// `String::from_utf8`: claims that it succeeds on valid UTF-8 and on nothing
/// else, and that it then gives the characters that the bytes encode.
#[verifier::external_body]
pub(crate) fn text_from_utf8(bytes: Vec<u8>) -> (r: Option<String>)
    ensures
        r is Some <==> valid_utf8(bytes@),
        r matches Some(s) ==> s@ == decode_utf8(bytes@),
{
    String::from_utf8(bytes).ok()
}

/// `String::push`: claims that it appends the character.
pub assume_specification[ String::push ](s: &mut String, c: char)
    ensures
        final(s)@ == old(s)@.push(c),
;

/// `String::push_str`: claims that it appends the text.
pub assume_specification[ String::push_str ](s: &mut String, other: &str)
    ensures
        final(s)@ == old(s)@ + other@,
;

} // verus!
