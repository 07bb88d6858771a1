//! The closed permission enumeration, its textual persistence encoding
//! (the JSON string form of the variant name), and deduplication of
//! permission lists.

use vstd::prelude::*;
use itertools::Itertools;

verus! {

/// A capability a user may hold. A permission is either held or not:
/// stored sets carry no ordering or multiplicity.
#[derive(Clone, Copy, Debug, PartialEq, Eq, Hash, Structural)]
pub enum Permission {
    ViewUsers,
    ManageUsers,
    ManagePages,
    ViewUnpublishedPosts,
    ManagePosts,
}

/// The textual encoding a permission is persisted under: the JSON
/// string form of its variant name.
pub open spec fn spec_permission_text(p: Permission) -> Seq<char> {
    match p {
        Permission::ViewUsers => "\"ViewUsers\""@,
        Permission::ManageUsers => "\"ManageUsers\""@,
        Permission::ManagePages => "\"ManagePages\""@,
        Permission::ViewUnpublishedPosts => "\"ViewUnpublishedPosts\""@,
        Permission::ManagePosts => "\"ManagePosts\""@,
    }
}

/// The decoding of a permission text: the unique variant whose encoding
/// matches, if any.
pub open spec fn spec_permission_from_text(t: Seq<char>) -> Option<Permission> {
    if t == spec_permission_text(Permission::ViewUsers) {
        Some(Permission::ViewUsers)
    } else if t == spec_permission_text(Permission::ManageUsers) {
        Some(Permission::ManageUsers)
    } else if t == spec_permission_text(Permission::ManagePages) {
        Some(Permission::ManagePages)
    } else if t == spec_permission_text(Permission::ViewUnpublishedPosts) {
        Some(Permission::ViewUnpublishedPosts)
    } else if t == spec_permission_text(Permission::ManagePosts) {
        Some(Permission::ManagePosts)
    } else {
        None
    }
}

impl Permission {
    /// Encodes this permission for persistence.
    pub fn to_text(&self) -> (r: String)
        ensures
            r@ == spec_permission_text(*self),
    {
        match self {
            Permission::ViewUsers => "\"ViewUsers\"".to_owned(),
            Permission::ManageUsers => "\"ManageUsers\"".to_owned(),
            Permission::ManagePages => "\"ManagePages\"".to_owned(),
            Permission::ViewUnpublishedPosts => "\"ViewUnpublishedPosts\"".to_owned(),
            Permission::ManagePosts => "\"ManagePosts\"".to_owned(),
        }
    }

    /// Decodes a persisted permission text; fails closed on anything
    /// that is not exactly the encoding of one variant.
    pub fn from_text(s: &str) -> (r: Option<Permission>)
        ensures
            r == spec_permission_from_text(s@),
    {
        let t = s.to_owned();
        if t == "\"ViewUsers\"".to_owned() {
            Some(Permission::ViewUsers)
        } else if t == "\"ManageUsers\"".to_owned() {
            Some(Permission::ManageUsers)
        } else if t == "\"ManagePages\"".to_owned() {
            Some(Permission::ManagePages)
        } else if t == "\"ViewUnpublishedPosts\"".to_owned() {
            Some(Permission::ViewUnpublishedPosts)
        } else if t == "\"ManagePosts\"".to_owned() {
            Some(Permission::ManagePosts)
        } else {
            None
        }
    }
}

/// Decoding inverts encoding: every permission's persisted text reads
/// back as exactly that permission.
pub proof fn lemma_permission_text_round_trip(p: Permission)
    ensures
        spec_permission_from_text(spec_permission_text(p)) == Some(p),
{
    reveal_strlit("\"ViewUsers\"");
    reveal_strlit("\"ManageUsers\"");
    reveal_strlit("\"ManagePages\"");
    reveal_strlit("\"ViewUnpublishedPosts\"");
    reveal_strlit("\"ManagePosts\"");
    assert("\"ViewUsers\""@.len() == 11);
    assert("\"ManageUsers\""@.len() == 13);
    assert("\"ManagePages\""@.len() == 13);
    assert("\"ViewUnpublishedPosts\""@.len() == 22);
    assert("\"ManagePosts\""@.len() == 13);
    assert("\"ManagePages\""@[7] != "\"ManageUsers\""@[7]);
    assert("\"ManagePosts\""@[7] != "\"ManageUsers\""@[7]);
    assert("\"ManagePosts\""@[8] != "\"ManagePages\""@[8]);
}

/// The input with every later duplicate dropped: each element appears
/// once, at the position of its first occurrence.
pub open spec fn dedup_first(s: Seq<Permission>) -> Seq<Permission>
    decreases s.len(),
{
    if s.len() == 0 {
        Seq::<Permission>::empty()
    } else {
        let rest = dedup_first(s.drop_last());
        if rest.contains(s.last()) {
            rest
        } else {
            rest.push(s.last())
        }
    }
}

/// Deduplication yields a duplicate-free list holding exactly the
/// elements of its input.
pub proof fn lemma_dedup_first_props(s: Seq<Permission>)
    ensures
        dedup_first(s).no_duplicates(),
        forall|p: Permission| dedup_first(s).contains(p) <==> s.contains(p),
    decreases s.len(),
{
    if s.len() == 0 {
    } else {
        let rest = dedup_first(s.drop_last());
        lemma_dedup_first_props(s.drop_last());
        assert forall|p: Permission| dedup_first(s).contains(p) <==> s.contains(p) by {
            assert(rest.contains(p) <==> s.drop_last().contains(p));
            assert(s.contains(p) <==> (s.drop_last().contains(p) || p == s.last())) by {
                if s.contains(p) {
                    let i = choose|i: int| 0 <= i < s.len() && s[i] == p;
                    if i < s.len() - 1 {
                        assert(s.drop_last()[i] == p);
                    }
                }
                if s.drop_last().contains(p) {
                    let j = choose|j: int|
                        0 <= j < s.drop_last().len() && s.drop_last()[j] == p;
                    assert(s[j] == p);
                }
                if p == s.last() {
                    assert(s[s.len() - 1] == p);
                }
            }
            if !rest.contains(s.last()) {
                let pushed = rest.push(s.last());
                assert(pushed.contains(p) <==> (rest.contains(p) || p == s.last())) by {
                    if rest.contains(p) {
                        let j = choose|j: int| 0 <= j < rest.len() && rest[j] == p;
                        assert(pushed[j] == p);
                    }
                    if p == s.last() {
                        assert(pushed[rest.len() as int] == p);
                    }
                    if pushed.contains(p) {
                        let k = choose|k: int| 0 <= k < pushed.len() && pushed[k] == p;
                        if k < rest.len() {
                            assert(rest[k] == p);
                        }
                    }
                }
            }
        }
        if !rest.contains(s.last()) {
            assert forall|i: int, j: int|
                0 <= i < j < dedup_first(s).len() implies dedup_first(s)[i] != dedup_first(s)[j] by {
                if j < rest.len() {
                } else {
                    assert(dedup_first(s)[j] == s.last());
                    assert(dedup_first(s)[i] == rest[i]);
                    assert(rest.contains(rest[i]));
                }
            }
        }
    }
}

/// Relies on itertools::Itertools::unique: yields the input's elements
/// in order, skipping any element equal (by hash and equality) to one
/// already yielded — i.e. first occurrences only.
#[verifier::external_body]
pub(crate) fn unique_permissions(v: Vec<Permission>) -> (r: Vec<Permission>)
    ensures
        r@ == dedup_first(v@),
{
    v.into_iter().unique().collect()
}

} // verus!
