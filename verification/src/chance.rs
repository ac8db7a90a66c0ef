//! What is left to chance: identifiers, key material and nonces, each drawn anew
//! when it is asked for.

use vstd::prelude::*;

use crate::outside::{is_uuid_v4, new_uuid, random_bytes, random_nonce};

verus! {

/// Whether a text is one that the generator of identifiers gave.
pub closed spec fn drawn_uuid(text: Seq<char>) -> bool {
    exists|s: String| s@ == text && #[trigger] call_ensures(new_uuid, (), s)
}

/// Whether some bytes are key material that the generator gave.
pub closed spec fn drawn_bytes(bytes: Seq<u8>) -> bool {
    exists|b: [u8; 32]| b@ == bytes && #[trigger] call_ensures(random_bytes, (), b)
}

/// Whether some bytes are a nonce that the generator gave.
pub closed spec fn drawn_nonce(bytes: Seq<u8>) -> bool {
    exists|b: [u8; 12]| b@ == bytes && #[trigger] call_ensures(random_nonce, (), b)
}

/// What is said to be drawn came out of the generator of its kind: identifiers,
/// key material and nonces.
pub(crate) proof fn law_drawn_values_come_from_their_generators(
    text: Seq<char>,
    material: Seq<u8>,
    nonce: Seq<u8>,
)
    ensures
        drawn_uuid(text) ==> exists|s: String| s@ == text && #[trigger] call_ensures(
            new_uuid,
            (),
            s,
        ),
        drawn_bytes(material) ==> exists|b: [u8; 32]|
            b@ == material && #[trigger] call_ensures(random_bytes, (), b),
        drawn_nonce(nonce) ==> exists|b: [u8; 12]|
            b@ == nonce && #[trigger] call_ensures(random_nonce, (), b),
        drawn_uuid(text) ==> is_uuid_v4(text),
{
}

/// Draws an identifier.
pub(crate) fn fresh_uuid() -> (r: String)
    ensures
        is_uuid_v4(r@),
        drawn_uuid(r@),
{
    new_uuid()
}

/// Draws key material.
pub(crate) fn fresh_bytes() -> (r: [u8; 32])
    ensures
        drawn_bytes(r@),
{
    random_bytes()
}

/// Draws a nonce.
pub(crate) fn fresh_nonce() -> (r: [u8; 12])
    ensures
        drawn_nonce(r@),
{
    random_nonce()
}

} // verus!
