//! The user store: rows keyed by the external subject id, with point
//! lookup, full scan, idempotent upsert, delete, and whole-set
//! permission replacement. These primitives are not gated; the gated
//! operations compose them with the authorization gate.

use vstd::prelude::*;
use crate::permissions::{Permission, dedup_first, lemma_dedup_first_props, unique_permissions};
use crate::user::{copy_permissions, NewUser, NewUserView, User, UserView};

verus! {

/// No two rows share an id.
pub open spec fn ids_unique(rows: Seq<UserView>) -> bool {
    forall|i: int, j: int| 0 <= i < j < rows.len() ==> rows[i].id != rows[j].id
}

/// Some row carries the given id.
pub open spec fn has_user(rows: Seq<UserView>, id: Seq<char>) -> bool {
    exists|i: int| 0 <= i < rows.len() && rows[i].id == id
}

/// The row carrying the given id; well defined when ids are unique.
pub open spec fn user_for(rows: Seq<UserView>, id: Seq<char>) -> UserView
    recommends
        has_user(rows, id),
{
    let i = choose|i: int| 0 <= i < rows.len() && rows[i].id == id;
    rows[i]
}

/// With unique ids, the row at any index is the row its id selects.
pub proof fn lemma_user_for_index(rows: Seq<UserView>, i: int)
    requires
        ids_unique(rows),
        0 <= i < rows.len(),
    ensures
        has_user(rows, rows[i].id),
        user_for(rows, rows[i].id) == rows[i],
{
    assert(0 <= i < rows.len() && rows[i].id == rows[i].id);
    let j = choose|j: int| 0 <= j < rows.len() && rows[j].id == rows[i].id;
    if j < i {
        assert(rows[j].id != rows[i].id);
    } else if i < j {
        assert(rows[i].id != rows[j].id);
    }
}

/// The row an upsert stores: the record's profile fields with the
/// given permission set.
pub open spec fn merged_row(n: NewUserView, permissions: Seq<Permission>) -> UserView {
    UserView {
        id: n.id,
        permissions: permissions,
        email: n.email,
        name: n.name,
        picture: n.picture,
        given_name: n.given_name,
        family_name: n.family_name,
        locale: n.locale,
    }
}

/// The given row with its permission set replaced.
pub open spec fn perms_replaced(v: UserView, permissions: Seq<Permission>) -> UserView {
    UserView { permissions: permissions, ..v }
}

/// How an upsert changes the rows: an existing row with the record's
/// id has its profile refreshed in place and its permissions kept;
/// otherwise the record is appended as a new row with no permissions.
pub open spec fn upsert_effect(pre: Seq<UserView>, n: NewUserView, post: Seq<UserView>) -> bool {
    if has_user(pre, n.id) {
        exists|i: int|
            0 <= i < pre.len() && pre[i].id == n.id && post == pre.update(
                i,
                merged_row(n, pre[i].permissions),
            )
    } else {
        post == pre.push(merged_row(n, Seq::<Permission>::empty()))
    }
}

/// The permission set an upsert leaves on the record's row: the
/// existing row's set, or empty for a fresh row.
pub open spec fn spec_upsert_permissions(pre: Seq<UserView>, id: Seq<char>) -> Seq<Permission> {
    if has_user(pre, id) {
        user_for(pre, id).permissions
    } else {
        Seq::<Permission>::empty()
    }
}

/// Upserting records with the same id twice leaves exactly one row for
/// that id: it carries the second record's profile fields, and the
/// permission set it had after the first upsert — a profile refresh
/// never touches permissions.
pub proof fn lemma_upsert_twice(
    pre: Seq<UserView>,
    mid: Seq<UserView>,
    post: Seq<UserView>,
    n1: NewUserView,
    n2: NewUserView,
)
    requires
        ids_unique(pre),
        n1.id == n2.id,
        upsert_effect(pre, n1, mid),
        upsert_effect(mid, n2, post),
    ensures
        exists|i: int|
            0 <= i < post.len() && post[i].id == n2.id && (forall|j: int|
                0 <= j < post.len() && post[j].id == n2.id ==> j == i) && post[i] == merged_row(
                n2,
                spec_upsert_permissions(pre, n1.id),
            ),
{
    if has_user(pre, n1.id) {
        let i1 = choose|i: int|
            0 <= i < pre.len() && pre[i].id == n1.id && mid == pre.update(
                i,
                merged_row(n1, pre[i].permissions),
            );
        assert(mid[i1].id == n2.id);
        assert(has_user(mid, n2.id));
        let i2 = choose|i: int|
            0 <= i < mid.len() && mid[i].id == n2.id && post == mid.update(
                i,
                merged_row(n2, mid[i].permissions),
            );
        if i2 != i1 {
            assert(mid[i2] == pre[i2]);
            if i2 < i1 {
                assert(pre[i2].id != pre[i1].id);
            } else {
                assert(pre[i1].id != pre[i2].id);
            }
        }
        assert(mid[i1].permissions == pre[i1].permissions);
        lemma_user_for_index(pre, i1);
        assert(post[i1] == merged_row(n2, spec_upsert_permissions(pre, n1.id)));
        assert forall|j: int| 0 <= j < post.len() && post[j].id == n2.id implies j == i1 by {
            if j != i1 {
                assert(post[j] == pre[j]);
                if j < i1 {
                    assert(pre[j].id != pre[i1].id);
                } else {
                    assert(pre[i1].id != pre[j].id);
                }
            }
        }
    } else {
        let fresh = pre.len() as int;
        assert(mid == pre.push(merged_row(n1, Seq::<Permission>::empty())));
        assert(mid[fresh].id == n2.id);
        assert(has_user(mid, n2.id));
        let i2 = choose|i: int|
            0 <= i < mid.len() && mid[i].id == n2.id && post == mid.update(
                i,
                merged_row(n2, mid[i].permissions),
            );
        if i2 != fresh {
            assert(0 <= i2 < pre.len() && pre[i2].id == n1.id);
            assert(has_user(pre, n1.id));
        }
        assert(post[fresh] == merged_row(n2, spec_upsert_permissions(pre, n1.id)));
        assert forall|j: int| 0 <= j < post.len() && post[j].id == n2.id implies j == fresh by {
            if j != fresh {
                assert(post[j] == pre[j]);
                if 0 <= j < pre.len() && pre[j].id == n1.id {
                    assert(has_user(pre, n1.id));
                }
            }
        }
    }
}

/// A stored permission set is deduplicated: after a row's permissions
/// are replaced with a list, the row its id then selects holds each
/// listed permission exactly once and nothing else.
pub proof fn lemma_set_permissions_then_get(
    pre: Seq<UserView>,
    post: Seq<UserView>,
    id: Seq<char>,
    given: Seq<Permission>,
    i: int,
)
    requires
        ids_unique(pre),
        0 <= i < pre.len(),
        pre[i].id == id,
        post == pre.update(i, perms_replaced(pre[i], dedup_first(given))),
    ensures
        has_user(post, id),
        user_for(post, id).permissions.no_duplicates(),
        forall|p: Permission| user_for(post, id).permissions.contains(p) <==> given.contains(p),
{
    lemma_dedup_first_props(given);
    assert forall|a: int, b: int| 0 <= a < b < post.len() implies post[a].id != post[b].id by {
        assert(pre[a].id != pre[b].id);
    }
    assert(post[i].id == id);
    lemma_user_for_index(post, i);
}

/// Deleting a row leaves no row for its id: a subsequent lookup of the
/// same id finds nothing.
pub proof fn lemma_delete_then_get(pre: Seq<UserView>, post: Seq<UserView>, id: Seq<char>, i: int)
    requires
        ids_unique(pre),
        0 <= i < pre.len(),
        pre[i].id == id,
        post == pre.remove(i),
    ensures
        !has_user(post, id),
{
    assert forall|j: int| 0 <= j < post.len() implies post[j].id != id by {
        let j0: int = if j < i {
            j
        } else {
            j + 1
        };
        assert(post[j] == pre[j0]);
        if j0 < i {
            assert(pre[j0].id != pre[i].id);
        } else {
            assert(pre[i].id != pre[j0].id);
        }
    }
}

/// In-memory table of user rows, one per distinct external id.
pub struct UserStore {
    users: Vec<User>,
}

impl View for UserStore {
    type V = Seq<UserView>;

    closed spec fn view(&self) -> Seq<UserView> {
        self.users@.map_values(|u: User| u@)
    }
}

impl UserStore {
    /// Well-formed: ids are unique and no stored permission set holds
    /// duplicates.
    pub open spec fn wf(&self) -> bool {
        &&& ids_unique(self@)
        &&& forall|i: int| 0 <= i < self@.len() ==> self@[i].permissions.no_duplicates()
    }

    /// An empty store.
    pub fn new() -> (r: UserStore)
        ensures
            r.wf(),
            r@ == Seq::<UserView>::empty(),
    {
        let r = UserStore { users: Vec::new() };
        proof {
            assert(r@ =~= Seq::<UserView>::empty());
        }
        r
    }

    /// The index of the row carrying the given id, if any.
    fn find_index(&self, id: &String) -> (r: Option<usize>)
        ensures
            r matches Some(i) ==> i < self@.len() && self@[i as int].id == id@,
            r is None ==> !has_user(self@, id@),
    {
        let mut k: usize = 0;
        while k < self.users.len()
            invariant
                k <= self@.len(),
                forall|j: int| 0 <= j < k ==> self@[j].id != id@,
            decreases self@.len() - k,
        {
            if self.users[k].id == *id {
                assert(self@[k as int].id == id@);
                return Some(k);
            }
            assert(self@[k as int].id != id@);
            k += 1;
        }
        None
    }

    /// Point lookup: a copy of the row for the id, if one exists.
    pub fn get(&self, id: &str) -> (r: Option<User>)
        requires
            self.wf(),
        ensures
            r is None ==> !has_user(self@, id@),
            r matches Some(u) ==> has_user(self@, id@) && u@ == user_for(self@, id@),
    {
        let key: String = id.to_owned();
        match self.find_index(&key) {
            Some(i) => {
                let u = self.users[i].duplicate();
                proof {
                    lemma_user_for_index(self@, i as int);
                }
                Some(u)
            },
            None => None,
        }
    }

    /// Full scan: copies of all rows, in storage order.
    pub fn list_all(&self) -> (r: Vec<User>)
        ensures
            r@.map_values(|u: User| u@) == self@,
    {
        let mut out: Vec<User> = Vec::new();
        let mut k: usize = 0;
        while k < self.users.len()
            invariant
                k <= self@.len(),
                out@.len() == k,
                forall|j: int| 0 <= j < k ==> out@[j]@ == self@[j],
            decreases self@.len() - k,
        {
            out.push(self.users[k].duplicate());
            k += 1;
        }
        assert(out@.map_values(|u: User| u@) =~= self@);
        out
    }

    /// Insert-or-update keyed on the record's id: a known id has its
    /// profile fields refreshed in place, its permission set untouched;
    /// an unknown id gains a fresh row with an empty permission set.
    /// Returns a copy of the stored row.
    pub fn upsert(&mut self, record: &NewUser) -> (r: User)
        requires
            old(self).wf(),
        ensures
            final(self).wf(),
            upsert_effect(old(self)@, record@, final(self)@),
            r@ == merged_row(record@, spec_upsert_permissions(old(self)@, record@.id)),
    {
        match self.find_index(&record.id) {
            Some(i) => {
                let ghost pre = self@;
                let perms = copy_permissions(&self.users[i].permissions);
                let row = User {
                    id: record.id.clone(),
                    permissions: perms,
                    email: record.email.clone(),
                    name: record.name.clone(),
                    picture: record.picture.clone(),
                    given_name: record.given_name.clone(),
                    family_name: record.family_name.clone(),
                    locale: record.locale.clone(),
                };
                let ret = row.duplicate();
                self.users[i] = row;
                proof {
                    assert(self@ =~= pre.update(i as int, merged_row(record@, pre[i as int].permissions)));
                    lemma_user_for_index(pre, i as int);
                    assert forall|a: int, b: int| 0 <= a < b < self@.len() implies self@[a].id
                        != self@[b].id by {
                        assert(pre[a].id != pre[b].id);
                    }
                }
                ret
            },
            None => {
                let ghost pre = self@;
                let row = User {
                    id: record.id.clone(),
                    permissions: Vec::new(),
                    email: record.email.clone(),
                    name: record.name.clone(),
                    picture: record.picture.clone(),
                    given_name: record.given_name.clone(),
                    family_name: record.family_name.clone(),
                    locale: record.locale.clone(),
                };
                let ret = row.duplicate();
                self.users.push(row);
                proof {
                    assert(self@ =~= pre.push(merged_row(record@, Seq::<Permission>::empty())));
                    assert forall|a: int, b: int| 0 <= a < b < self@.len() implies self@[a].id
                        != self@[b].id by {
                        if b < pre.len() {
                            assert(pre[a].id != pre[b].id);
                        } else {
                            assert(self@[b].id == record@.id);
                            assert(pre[a].id != record@.id);
                        }
                    }
                }
                ret
            },
        }
    }

    /// Removes the row for the id and hands it back, or nothing if the
    /// id is unknown (the store is then unchanged).
    pub fn delete(&mut self, id: &str) -> (r: Option<User>)
        requires
            old(self).wf(),
        ensures
            final(self).wf(),
            r is None ==> final(self)@ == old(self)@ && !has_user(old(self)@, id@),
            r matches Some(u) ==> exists|i: int|
                0 <= i < old(self)@.len() && old(self)@[i].id == id@ && u@ == old(self)@[i]
                    && final(self)@ == old(self)@.remove(i),
    {
        let key: String = id.to_owned();
        match self.find_index(&key) {
            Some(i) => {
                let ghost pre = self@;
                let row = self.users.remove(i);
                proof {
                    assert(self@ =~= pre.remove(i as int));
                    assert forall|a: int, b: int| 0 <= a < b < self@.len() implies self@[a].id
                        != self@[b].id by {
                        let a0: int = if a < i { a } else { a + 1 };
                        let b0: int = if b < i { b } else { b + 1 };
                        assert(self@[a] == pre[a0]);
                        assert(self@[b] == pre[b0]);
                        assert(pre[a0].id != pre[b0].id);
                    }
                    assert forall|j: int| 0 <= j < self@.len() implies self@[j]
                        .permissions
                        .no_duplicates() by {
                        let j0: int = if j < i { j } else { j + 1 };
                        assert(self@[j] == pre[j0]);
                    }
                }
                Some(row)
            },
            None => None,
        }
    }

    /// Replaces the whole permission set of the row for the id with
    /// the given permissions, deduplicated; not additive. Returns a
    /// copy of the updated row, or nothing for an unknown id (the
    /// store is then unchanged).
    pub fn set_permissions(&mut self, id: &str, permissions: Vec<Permission>) -> (r: Option<
        User,
    >)
        requires
            old(self).wf(),
        ensures
            final(self).wf(),
            r is None ==> final(self)@ == old(self)@ && !has_user(old(self)@, id@),
            r matches Some(u) ==> exists|i: int|
                0 <= i < old(self)@.len() && old(self)@[i].id == id@ && final(self)@ == old(self)@.update(
                    i,
                    perms_replaced(old(self)@[i], dedup_first(permissions@)),
                ) && u@ == perms_replaced(old(self)@[i], dedup_first(permissions@)),
    {
        let key: String = id.to_owned();
        match self.find_index(&key) {
            Some(i) => {
                let ghost pre = self@;
                let ghost given = permissions@;
                let uniq = unique_permissions(permissions);
                let row = User {
                    id: self.users[i].id.clone(),
                    permissions: uniq,
                    email: self.users[i].email.clone(),
                    name: self.users[i].name.clone(),
                    picture: self.users[i].picture.clone(),
                    given_name: self.users[i].given_name.clone(),
                    family_name: self.users[i].family_name.clone(),
                    locale: self.users[i].locale.clone(),
                };
                let ret = row.duplicate();
                self.users[i] = row;
                proof {
                    lemma_dedup_first_props(given);
                    assert(self@ =~= pre.update(i as int, perms_replaced(pre[i as int], dedup_first(given))));
                    assert forall|a: int, b: int| 0 <= a < b < self@.len() implies self@[a].id
                        != self@[b].id by {
                        assert(pre[a].id != pre[b].id);
                    }
                }
                Some(ret)
            },
            None => None,
        }
    }
}

} // verus!
