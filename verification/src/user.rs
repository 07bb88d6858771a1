//! The user row, the identity claims it is built from, and the
//! conversion of verified claims into a storable record.

use vstd::prelude::*;
use crate::permissions::Permission;
use crate::error::Error;

verus! {

/// One stored user row: a stable external subject id, mandatory
/// profile fields, and the assigned permission set.
#[derive(Debug)]
pub struct User {
    pub id: String,
    pub permissions: Vec<Permission>,
    pub email: String,
    pub name: String,
    pub picture: String,
    pub given_name: String,
    pub family_name: String,
    pub locale: String,
}

/// The mathematical value of a user row.
pub ghost struct UserView {
    pub id: Seq<char>,
    pub permissions: Seq<Permission>,
    pub email: Seq<char>,
    pub name: Seq<char>,
    pub picture: Seq<char>,
    pub given_name: Seq<char>,
    pub family_name: Seq<char>,
    pub locale: Seq<char>,
}

impl View for User {
    type V = UserView;

    open spec fn view(&self) -> UserView {
        UserView {
            id: self.id@,
            permissions: self.permissions@,
            email: self.email@,
            name: self.name@,
            picture: self.picture@,
            given_name: self.given_name@,
            family_name: self.family_name@,
            locale: self.locale@,
        }
    }
}

impl User {
    /// Whether this user holds the given permission.
    pub fn has_permission(&self, permission: &Permission) -> (r: bool)
        ensures
            r == self.permissions@.contains(*permission),
    {
        let mut k: usize = 0;
        while k < self.permissions.len()
            invariant
                k <= self.permissions@.len(),
                forall|j: int| 0 <= j < k ==> self.permissions@[j] != *permission,
            decreases self.permissions@.len() - k,
        {
            if self.permissions[k] == *permission {
                assert(self.permissions@[k as int] == *permission);
                return true;
            }
            k += 1;
        }
        false
    }

    /// A field-for-field copy of this row.
    pub fn duplicate(&self) -> (r: User)
        ensures
            r@ == self@,
    {
        User {
            id: self.id.clone(),
            permissions: copy_permissions(&self.permissions),
            email: self.email.clone(),
            name: self.name.clone(),
            picture: self.picture.clone(),
            given_name: self.given_name.clone(),
            family_name: self.family_name.clone(),
            locale: self.locale.clone(),
        }
    }
}

pub(crate) fn copy_permissions(v: &Vec<Permission>) -> (r: Vec<Permission>)
    ensures
        r@ == v@,
{
    let mut r: Vec<Permission> = Vec::new();
    let mut k: usize = 0;
    while k < v.len()
        invariant
            k <= v@.len(),
            r@ == v@.subrange(0, k as int),
        decreases v@.len() - k,
    {
        r.push(v[k]);
        assert(v@.subrange(0, k + 1 as int) =~= v@.subrange(0, k as int).push(v@[k as int]));
        k += 1;
    }
    assert(r@ =~= v@);
    r
}

/// A record ready to be stored: every profile field present. Built
/// only from complete identity claims.
#[derive(Debug)]
pub struct NewUser {
    pub id: String,
    pub email: String,
    pub name: String,
    pub picture: String,
    pub given_name: String,
    pub family_name: String,
    pub locale: String,
}

/// The mathematical value of a storable record.
pub ghost struct NewUserView {
    pub id: Seq<char>,
    pub email: Seq<char>,
    pub name: Seq<char>,
    pub picture: Seq<char>,
    pub given_name: Seq<char>,
    pub family_name: Seq<char>,
    pub locale: Seq<char>,
}

impl View for NewUser {
    type V = NewUserView;

    open spec fn view(&self) -> NewUserView {
        NewUserView {
            id: self.id@,
            email: self.email@,
            name: self.name@,
            picture: self.picture@,
            given_name: self.given_name@,
            family_name: self.family_name@,
            locale: self.locale@,
        }
    }
}

/// Identity claims as the external verifier yields them: the subject
/// id is always present, every profile field may be absent.
#[derive(Debug)]
pub struct Claims {
    pub sub: String,
    pub email: Option<String>,
    pub name: Option<String>,
    pub picture: Option<String>,
    pub given_name: Option<String>,
    pub family_name: Option<String>,
    pub locale: Option<String>,
}

/// The mathematical value of a set of identity claims.
pub ghost struct ClaimsView {
    pub sub: Seq<char>,
    pub email: Option<Seq<char>>,
    pub name: Option<Seq<char>>,
    pub picture: Option<Seq<char>>,
    pub given_name: Option<Seq<char>>,
    pub family_name: Option<Seq<char>>,
    pub locale: Option<Seq<char>>,
}

impl View for Claims {
    type V = ClaimsView;

    open spec fn view(&self) -> ClaimsView {
        ClaimsView {
            sub: self.sub@,
            email: match self.email {
                Some(s) => Some(s@),
                None => None,
            },
            name: match self.name {
                Some(s) => Some(s@),
                None => None,
            },
            picture: match self.picture {
                Some(s) => Some(s@),
                None => None,
            },
            given_name: match self.given_name {
                Some(s) => Some(s@),
                None => None,
            },
            family_name: match self.family_name {
                Some(s) => Some(s@),
                None => None,
            },
            locale: match self.locale {
                Some(s) => Some(s@),
                None => None,
            },
        }
    }
}

/// Whether every mandatory profile field is present in the claims.
pub open spec fn all_claims_fields_present(c: ClaimsView) -> bool {
    &&& c.email is Some
    &&& c.name is Some
    &&& c.picture is Some
    &&& c.given_name is Some
    &&& c.family_name is Some
    &&& c.locale is Some
}

/// The names of exactly the missing mandatory fields, in field order.
pub open spec fn spec_missing_fields(c: ClaimsView) -> Seq<Seq<char>> {
    let s0 = Seq::<Seq<char>>::empty();
    let s1 = if c.email is None { s0.push("email"@) } else { s0 };
    let s2 = if c.name is None { s1.push("name"@) } else { s1 };
    let s3 = if c.picture is None { s2.push("picture"@) } else { s2 };
    let s4 = if c.given_name is None { s3.push("given_name"@) } else { s3 };
    let s5 = if c.family_name is None { s4.push("family_name"@) } else { s4 };
    if c.locale is None { s5.push("locale"@) } else { s5 }
}

/// The record complete claims convert to: the subject id becomes the
/// row id, each profile field is taken as claimed.
pub open spec fn spec_record_of_claims(c: ClaimsView) -> NewUserView
    recommends
        all_claims_fields_present(c),
{
    NewUserView {
        id: c.sub,
        email: c.email.unwrap(),
        name: c.name.unwrap(),
        picture: c.picture.unwrap(),
        given_name: c.given_name.unwrap(),
        family_name: c.family_name.unwrap(),
        locale: c.locale.unwrap(),
    }
}

impl NewUser {
    /// Converts verified identity claims into a storable record.
    /// Succeeds exactly when every mandatory profile field is present;
    /// otherwise fails with the names of all missing fields, so the
    /// caller gets one complete diagnostic.
    pub fn from_claims(claims: Claims) -> (r: Result<NewUser, Error>)
        ensures
            all_claims_fields_present(claims@) ==> (r matches Ok(u) && u@
                == spec_record_of_claims(claims@)),
            !all_claims_fields_present(claims@) ==> (r matches Err(e) && (e matches
                Error::MissingUserFields(m) && m@.map_values(|s: String| s@)
                == spec_missing_fields(claims@))),
    {
        let mut missing: Vec<String> = Vec::new();
        if claims.email.is_none() {
            missing.push("email".to_owned());
        }
        if claims.name.is_none() {
            missing.push("name".to_owned());
        }
        if claims.picture.is_none() {
            missing.push("picture".to_owned());
        }
        if claims.given_name.is_none() {
            missing.push("given_name".to_owned());
        }
        if claims.family_name.is_none() {
            missing.push("family_name".to_owned());
        }
        if claims.locale.is_none() {
            missing.push("locale".to_owned());
        }
        if missing.len() > 0 {
            proof {
                assert(missing@.map_values(|s: String| s@) =~= spec_missing_fields(claims@));
            }
            return Err(Error::MissingUserFields(missing));
        }
        Ok(NewUser {
            id: claims.sub,
            email: claims.email.unwrap(),
            name: claims.name.unwrap(),
            picture: claims.picture.unwrap(),
            given_name: claims.given_name.unwrap(),
            family_name: claims.family_name.unwrap(),
            locale: claims.locale.unwrap(),
        })
    }
}

} // verus!
