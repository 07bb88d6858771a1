//! Read operations: session resolution and the gated user queries,
//! plus the query façade the API surface exposes.

use vstd::prelude::*;
use crate::auth::require_permission;
use crate::error::Error;
use crate::permissions::Permission;
use crate::store::{has_user, user_for, UserStore};
use crate::user::User;

verus! {

impl User {
    /// Ungated point lookup, for session resolution: the row for the
    /// id, or a not-found failure.
    pub fn get_by_id_authless(store: &UserStore, id: &str) -> (r: Result<User, Error>)
        requires
            store.wf(),
        ensures
            r is Ok <==> has_user(store@, id@),
            r matches Ok(u) ==> u@ == user_for(store@, id@),
            r matches Err(e) ==> e == Error::NotFound,
    {
        match store.get(id) {
            Some(u) => Ok(u),
            None => Err(Error::NotFound),
        }
    }

    /// Resolves the session: no cookie value fails with an
    /// authentication error; a carried user id is looked up ungated,
    /// an unknown id failing as not found.
    pub fn from_cookie(store: &UserStore, cookie: &Option<String>) -> (r: Result<User, Error>)
        requires
            store.wf(),
        ensures
            cookie is None ==> r == Err::<User, Error>(Error::Authentication),
            cookie matches Some(id) ==> {
                &&& has_user(store@, id@) ==> (r matches Ok(u) && u@ == user_for(store@, id@))
                &&& !has_user(store@, id@) ==> r == Err::<User, Error>(Error::NotFound)
            },
    {
        match cookie {
            None => Err(Error::Authentication),
            Some(id) => Self::get_by_id_authless(store, id.as_str()),
        }
    }

    /// All users; gated on the view permission. A request with no
    /// resolved identity fails with authentication, one lacking the
    /// permission with authorization, and neither touches the store.
    pub fn get_many(requester: &Option<User>, store: &UserStore) -> (r: Result<Vec<User>, Error>)
        ensures
            requester is None ==> r == Err::<Vec<User>, Error>(Error::Authentication),
            (requester matches Some(u) && !u.permissions@.contains(Permission::ViewUsers)) ==> r
                == Err::<Vec<User>, Error>(Error::Authorization),
            (requester matches Some(u) && u.permissions@.contains(Permission::ViewUsers)) ==> (r
                matches Ok(list) && list@.map_values(|x: User| x@) == store@),
    {
        match require_permission(requester, &Permission::ViewUsers) {
            Err(e) => Err(e),
            Ok(()) => Ok(store.list_all()),
        }
    }

    /// One user by id; gated on the view permission, then resolved as
    /// the ungated lookup does.
    pub fn get_by_id(requester: &Option<User>, store: &UserStore, id: &str) -> (r: Result<
        User,
        Error,
    >)
        requires
            store.wf(),
        ensures
            requester is None ==> r == Err::<User, Error>(Error::Authentication),
            (requester matches Some(u) && !u.permissions@.contains(Permission::ViewUsers)) ==> r
                == Err::<User, Error>(Error::Authorization),
            (requester matches Some(u) && u.permissions@.contains(Permission::ViewUsers)) ==> {
                &&& r is Ok <==> has_user(store@, id@)
                &&& (r matches Ok(found) ==> found@ == user_for(store@, id@))
                &&& (r matches Err(e) ==> e == Error::NotFound)
            },
    {
        match require_permission(requester, &Permission::ViewUsers) {
            Err(e) => Err(e),
            Ok(()) => Self::get_by_id_authless(store, id),
        }
    }
}

/// The read side of the API surface.
pub struct UserQuery;

impl UserQuery {
    /// The `getMany` query: all users, gated on the view permission.
    pub fn get_many(&self, requester: &Option<User>, store: &UserStore) -> (r: Result<
        Vec<User>,
        Error,
    >)
        ensures
            requester is None ==> r == Err::<Vec<User>, Error>(Error::Authentication),
            (requester matches Some(u) && !u.permissions@.contains(Permission::ViewUsers)) ==> r
                == Err::<Vec<User>, Error>(Error::Authorization),
            (requester matches Some(u) && u.permissions@.contains(Permission::ViewUsers)) ==> (r
                matches Ok(list) && list@.map_values(|x: User| x@) == store@),
    {
        User::get_many(requester, store)
    }

    /// The `get` query: one user by id, gated on the view permission.
    pub fn get(&self, requester: &Option<User>, store: &UserStore, id: &str) -> (r: Result<
        User,
        Error,
    >)
        requires
            store.wf(),
        ensures
            requester is None ==> r == Err::<User, Error>(Error::Authentication),
            (requester matches Some(u) && !u.permissions@.contains(Permission::ViewUsers)) ==> r
                == Err::<User, Error>(Error::Authorization),
            (requester matches Some(u) && u.permissions@.contains(Permission::ViewUsers)) ==> {
                &&& r is Ok <==> has_user(store@, id@)
                &&& (r matches Ok(found) ==> found@ == user_for(store@, id@))
                &&& (r matches Err(e) ==> e == Error::NotFound)
            },
    {
        User::get_by_id(requester, store, id)
    }
}

} // verus!
