//! Sealing for storage, under the secret of the database.

use vstd::prelude::*;

use crate::chance::drawn_nonce;
use crate::crypto::keys::{
    decrypt_with_shared_key, encrypt_with_shared_key, is_sealed, opened, seal_failure,
};
use crate::error::{bytes_result, AppResult};
use crate::outside::MAX_MESSAGE_LEN;

verus! {

/// Seals bytes for the database.
pub fn encrypt_db(data: &[u8], secret: &[u8; 32]) -> (r: AppResult<Vec<u8>>)
    ensures
        match r {
            Ok(blob) => {
                &&& data@.len() <= MAX_MESSAGE_LEN
                &&& is_sealed(blob@, secret@, data@)
                &&& drawn_nonce(blob@.take(12))
            },
            Err(e) => data@.len() > MAX_MESSAGE_LEN && e@ == seal_failure(),
        },
{
    encrypt_with_shared_key(data, secret)
}

/// Opens bytes that were sealed for the database.
pub fn decrypt_db(data: &[u8], secret: &[u8; 32]) -> (r: AppResult<Vec<u8>>)
    ensures
        bytes_result(r) == opened(data@, secret@),
        r matches Ok(p) ==> p@.len() + 28 == data@.len(),
{
    decrypt_with_shared_key(data, secret)
}

} // verus!
