//! The authorization gate: every gated operation calls it first, so a
//! request with no resolved identity fails before any store work, and
//! a resolved identity without the required permission is refused.

use vstd::prelude::*;
use crate::error::Error;
use crate::permissions::Permission;
use crate::user::User;

verus! {

/// Admits the operation exactly when an identity was resolved for the
/// request and it holds the required permission. Fails closed:
/// no identity is an authentication failure, a lacking permission an
/// authorization failure.
pub fn require_permission(requester: &Option<User>, permission: &Permission) -> (r: Result<
    (),
    Error,
>)
    ensures
        requester is None ==> r == Err::<(), Error>(Error::Authentication),
        (requester matches Some(u) && !u.permissions@.contains(*permission)) ==> r == Err::<
            (),
            Error,
        >(Error::Authorization),
        (requester matches Some(u) && u.permissions@.contains(*permission)) ==> r is Ok,
{
    match requester {
        None => Err(Error::Authentication),
        Some(u) => {
            if u.has_permission(permission) {
                Ok(())
            } else {
                Err(Error::Authorization)
            }
        },
    }
}

} // verus!
