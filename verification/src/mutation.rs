//! Write operations: the gated user mutations, the upsert entry point
//! for freshly verified identities, and the mutation façade the API
//! surface exposes.

use vstd::prelude::*;
use crate::auth::require_permission;
use crate::error::Error;
use crate::permissions::{dedup_first, Permission};
use crate::store::{
    has_user, merged_row, perms_replaced, spec_upsert_permissions, upsert_effect, UserStore,
};
use crate::user::{NewUser, User};

verus! {

impl User {
    /// Deletes the row for the id and returns it; gated on the manage
    /// permission. A refused or failed request leaves the store
    /// unchanged.
    pub fn delete(requester: &Option<User>, store: &mut UserStore, id: &str) -> (r: Result<
        User,
        Error,
    >)
        requires
            old(store).wf(),
        ensures
            final(store).wf(),
            requester is None ==> r == Err::<User, Error>(Error::Authentication) && final(store)@
                == old(store)@,
            (requester matches Some(u) && !u.permissions@.contains(Permission::ManageUsers)) ==> r
                == Err::<User, Error>(Error::Authorization) && final(store)@ == old(store)@,
            (requester matches Some(u) && u.permissions@.contains(Permission::ManageUsers)
                && !has_user(old(store)@, id@)) ==> r == Err::<User, Error>(Error::NotFound)
                && final(store)@ == old(store)@,
            (requester matches Some(u) && u.permissions@.contains(Permission::ManageUsers)
                && has_user(old(store)@, id@)) ==> (r matches Ok(gone) && exists|i: int|
                0 <= i < old(store)@.len() && old(store)@[i].id == id@ && gone@ == old(store)@[i]
                    && final(store)@ == old(store)@.remove(i)),
    {
        match require_permission(requester, &Permission::ManageUsers) {
            Err(e) => Err(e),
            Ok(()) => match store.delete(id) {
                Some(gone) => Ok(gone),
                None => Err(Error::NotFound),
            },
        }
    }

    /// Replaces the whole permission set of the row for the id with
    /// the given list, deduplicated; gated on the manage permission.
    /// A refused or failed request leaves the store unchanged.
    pub fn set_permissions(
        requester: &Option<User>,
        store: &mut UserStore,
        id: &str,
        permissions: Vec<Permission>,
    ) -> (r: Result<User, Error>)
        requires
            old(store).wf(),
        ensures
            final(store).wf(),
            requester is None ==> r == Err::<User, Error>(Error::Authentication) && final(store)@
                == old(store)@,
            (requester matches Some(u) && !u.permissions@.contains(Permission::ManageUsers)) ==> r
                == Err::<User, Error>(Error::Authorization) && final(store)@ == old(store)@,
            (requester matches Some(u) && u.permissions@.contains(Permission::ManageUsers)
                && !has_user(old(store)@, id@)) ==> r == Err::<User, Error>(Error::NotFound)
                && final(store)@ == old(store)@,
            (requester matches Some(u) && u.permissions@.contains(Permission::ManageUsers)
                && has_user(old(store)@, id@)) ==> (r matches Ok(row) && exists|i: int|
                0 <= i < old(store)@.len() && old(store)@[i].id == id@ && final(store)@
                    == old(store)@.update(
                    i,
                    perms_replaced(old(store)@[i], dedup_first(permissions@)),
                ) && row@ == perms_replaced(old(store)@[i], dedup_first(permissions@))),
    {
        match require_permission(requester, &Permission::ManageUsers) {
            Err(e) => Err(e),
            Ok(()) => match store.set_permissions(id, permissions) {
                Some(row) => Ok(row),
                None => Err(Error::NotFound),
            },
        }
    }
}

impl NewUser {
    /// Stores this record under its id: a known id has its profile
    /// refreshed in place with its permission set untouched, an
    /// unknown id gains a fresh row with no permissions. Not gated:
    /// it runs on every successful identity verification.
    pub fn upsert(&self, store: &mut UserStore) -> (r: User)
        requires
            old(store).wf(),
        ensures
            final(store).wf(),
            upsert_effect(old(store)@, self@, final(store)@),
            r@ == merged_row(self@, spec_upsert_permissions(old(store)@, self@.id)),
    {
        store.upsert(self)
    }
}

/// The write side of the API surface.
pub struct UserMutation;

impl UserMutation {
    /// The `delete` mutation: removes and returns the row for the id,
    /// gated on the manage permission.
    pub fn delete(&self, requester: &Option<User>, store: &mut UserStore, id: &str) -> (r: Result<
        User,
        Error,
    >)
        requires
            old(store).wf(),
        ensures
            final(store).wf(),
            requester is None ==> r == Err::<User, Error>(Error::Authentication) && final(store)@
                == old(store)@,
            (requester matches Some(u) && !u.permissions@.contains(Permission::ManageUsers)) ==> r
                == Err::<User, Error>(Error::Authorization) && final(store)@ == old(store)@,
            (requester matches Some(u) && u.permissions@.contains(Permission::ManageUsers)
                && !has_user(old(store)@, id@)) ==> r == Err::<User, Error>(Error::NotFound)
                && final(store)@ == old(store)@,
            (requester matches Some(u) && u.permissions@.contains(Permission::ManageUsers)
                && has_user(old(store)@, id@)) ==> (r matches Ok(gone) && exists|i: int|
                0 <= i < old(store)@.len() && old(store)@[i].id == id@ && gone@ == old(store)@[i]
                    && final(store)@ == old(store)@.remove(i)),
    {
        User::delete(requester, store, id)
    }

    /// The `setPermissions` mutation: replaces a row's whole
    /// permission set, deduplicated, gated on the manage permission.
    pub fn set_permissions(
        &self,
        requester: &Option<User>,
        store: &mut UserStore,
        id: &str,
        permissions: Vec<Permission>,
    ) -> (r: Result<User, Error>)
        requires
            old(store).wf(),
        ensures
            final(store).wf(),
            requester is None ==> r == Err::<User, Error>(Error::Authentication) && final(store)@
                == old(store)@,
            (requester matches Some(u) && !u.permissions@.contains(Permission::ManageUsers)) ==> r
                == Err::<User, Error>(Error::Authorization) && final(store)@ == old(store)@,
            (requester matches Some(u) && u.permissions@.contains(Permission::ManageUsers)
                && !has_user(old(store)@, id@)) ==> r == Err::<User, Error>(Error::NotFound)
                && final(store)@ == old(store)@,
            (requester matches Some(u) && u.permissions@.contains(Permission::ManageUsers)
                && has_user(old(store)@, id@)) ==> (r matches Ok(row) && exists|i: int|
                0 <= i < old(store)@.len() && old(store)@[i].id == id@ && final(store)@
                    == old(store)@.update(
                    i,
                    perms_replaced(old(store)@[i], dedup_first(permissions@)),
                ) && row@ == perms_replaced(old(store)@[i], dedup_first(permissions@))),
    {
        User::set_permissions(requester, store, id, permissions)
    }
}

} // verus!
