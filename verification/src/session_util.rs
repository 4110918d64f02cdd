//! The decision behind session validation: what a session lookup's outcome
//! means for the request. Reading the session store itself is the shell's
//! work.

use crate::error::BizErrorEnum;
use vstd::prelude::*;

verus! {

/// Turns a session lookup into the logged-in user: a failed lookup and a
/// session with no user id both mean the caller is not logged in.
pub fn validate_session(lookup: Result<Option<u128>, BizErrorEnum>) -> (r: Result<
    u128,
    BizErrorEnum,
>)
    ensures
        match lookup {
            Ok(Some(user_id)) => r == Ok::<u128, BizErrorEnum>(user_id),
            Ok(None) => r == Err::<u128, BizErrorEnum>(BizErrorEnum::UserNotLoggedIn),
            Err(_) => r == Err::<u128, BizErrorEnum>(BizErrorEnum::UserNotLoggedIn),
        },
{
    match lookup {
        Ok(Some(user_id)) => Ok(user_id),
        Ok(None) => Err(BizErrorEnum::UserNotLoggedIn),
        Err(_) => Err(BizErrorEnum::UserNotLoggedIn),
    }
}

} // verus!
