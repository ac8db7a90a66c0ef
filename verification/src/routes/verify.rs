//! `GET /verify`: whether a session holds.

use vstd::prelude::*;

use crate::domain::user::User;
use crate::error::{refused, unit_result, AppResult, Failure};
use crate::routes::{owner_admitted, AuthOwner};

verus! {

/// Ends the session check with nothing to follow.
pub fn verify_handler(step: AuthOwner, owner: Option<User>) -> (r: AppResult<()>)
    ensures
        unit_result(r) == if owner_admitted(owner) {
            Ok::<(), Failure>(())
        } else {
            Err::<(), Failure>(refused())
        },
{
    match step.found(owner) {
        Ok(_) => Ok(()),
        Err(e) => Err(e),
    }
}

} // verus!
