use user_api::error::Error;
use user_api::mutation::UserMutation;
use user_api::permissions::Permission;
use user_api::query::UserQuery;
use user_api::store::UserStore;
use user_api::user::{Claims, NewUser, User};

fn record(id: &str, email: &str) -> NewUser {
    NewUser {
        id: id.to_owned(),
        email: email.to_owned(),
        name: "A B".to_owned(),
        picture: "p".to_owned(),
        given_name: "A".to_owned(),
        family_name: "B".to_owned(),
        locale: "en".to_owned(),
    }
}

fn requester(permissions: Vec<Permission>) -> Option<User> {
    Some(User {
        id: "admin".to_owned(),
        permissions,
        email: "admin@b.com".to_owned(),
        name: "Admin".to_owned(),
        picture: "p".to_owned(),
        given_name: "Ad".to_owned(),
        family_name: "Min".to_owned(),
        locale: "en".to_owned(),
    })
}

#[test]
fn upsert_twice_keeps_one_row_and_permissions() {
    let mut store = UserStore::new();
    store.upsert(&record("u1", "old@b.com"));
    store.set_permissions("u1", vec![Permission::ViewUsers]).unwrap();
    let returned = store.upsert(&record("u1", "new@b.com"));
    assert_eq!(returned.email, "new@b.com");
    let rows = store.list_all();
    assert_eq!(rows.len(), 1);
    assert_eq!(rows[0].id, "u1");
    assert_eq!(rows[0].email, "new@b.com");
    assert_eq!(rows[0].permissions, vec![Permission::ViewUsers]);
}

#[test]
fn upserted_claims_start_with_no_permissions() {
    let claims = Claims {
        sub: "u1".to_owned(),
        email: Some("a@b.com".to_owned()),
        name: Some("A B".to_owned()),
        picture: Some("p".to_owned()),
        given_name: Some("A".to_owned()),
        family_name: Some("B".to_owned()),
        locale: Some("en".to_owned()),
    };
    let mut store = UserStore::new();
    let rec = NewUser::from_claims(claims).unwrap();
    rec.upsert(&mut store);
    let row = store.get("u1").unwrap();
    assert_eq!(row.id, "u1");
    assert_eq!(row.email, "a@b.com");
    assert!(row.permissions.is_empty());
}

#[test]
fn set_permissions_deduplicates() {
    let mut store = UserStore::new();
    store.upsert(&record("u1", "a@b.com"));
    let stored = store
        .set_permissions(
            "u1",
            vec![
                Permission::ManagePosts,
                Permission::ViewUsers,
                Permission::ManagePosts,
                Permission::ViewUsers,
                Permission::ManagePosts,
            ],
        )
        .unwrap();
    assert_eq!(
        stored.permissions,
        vec![Permission::ManagePosts, Permission::ViewUsers]
    );
    let fetched = store.get("u1").unwrap();
    assert_eq!(
        fetched.permissions,
        vec![Permission::ManagePosts, Permission::ViewUsers]
    );
}

#[test]
fn no_session_fails_with_authentication() {
    let mut store = UserStore::new();
    store.upsert(&record("u1", "a@b.com"));
    let nobody: Option<User> = None;
    assert!(matches!(
        UserQuery.get_many(&nobody, &store),
        Err(Error::Authentication)
    ));
    assert!(matches!(
        UserQuery.get(&nobody, &store, "u1"),
        Err(Error::Authentication)
    ));
    assert!(matches!(
        UserMutation.delete(&nobody, &mut store, "u1"),
        Err(Error::Authentication)
    ));
    assert!(matches!(
        UserMutation.set_permissions(&nobody, &mut store, "u1", vec![Permission::ViewUsers]),
        Err(Error::Authentication)
    ));
    // Nothing reached the store: the row is still there, untouched.
    let row = store.get("u1").unwrap();
    assert_eq!(row.email, "a@b.com");
    assert!(row.permissions.is_empty());
    assert_eq!(Error::Authentication.status_code(), 401);
}

#[test]
fn missing_permission_fails_with_authorization() {
    let mut store = UserStore::new();
    store.upsert(&record("u1", "a@b.com"));
    let viewer = requester(vec![Permission::ViewUsers]);
    assert!(matches!(
        UserMutation.delete(&viewer, &mut store, "u1"),
        Err(Error::Authorization)
    ));
    // The target row remains present afterward.
    assert!(store.get("u1").is_some());
    assert_eq!(Error::Authorization.status_code(), 403);
}

#[test]
fn authorized_delete_removes_the_row() {
    let mut store = UserStore::new();
    store.upsert(&record("u1", "a@b.com"));
    let admin = requester(vec![Permission::ManageUsers]);
    let gone = UserMutation.delete(&admin, &mut store, "u1").unwrap();
    assert_eq!(gone.id, "u1");
    assert_eq!(gone.email, "a@b.com");
    match User::get_by_id_authless(&store, "u1") {
        Err(Error::NotFound) => {}
        other => panic!("expected not found, got {:?}", other),
    }
    assert_eq!(Error::NotFound.status_code(), 404);
}

#[test]
fn delete_unknown_id_is_not_found() {
    let mut store = UserStore::new();
    let admin = requester(vec![Permission::ManageUsers]);
    assert!(matches!(
        UserMutation.delete(&admin, &mut store, "ghost"),
        Err(Error::NotFound)
    ));
}

#[test]
fn gated_reads_work_for_viewers() {
    let mut store = UserStore::new();
    store.upsert(&record("u1", "a@b.com"));
    store.upsert(&record("u2", "c@d.com"));
    let viewer = requester(vec![Permission::ViewUsers]);
    let all = UserQuery.get_many(&viewer, &store).unwrap();
    assert_eq!(all.len(), 2);
    assert_eq!(all[0].id, "u1");
    assert_eq!(all[1].id, "u2");
    let one = UserQuery.get(&viewer, &store, "u2").unwrap();
    assert_eq!(one.email, "c@d.com");
    assert!(matches!(
        UserQuery.get(&viewer, &store, "u3"),
        Err(Error::NotFound)
    ));
}

#[test]
fn session_cookie_resolution() {
    let mut store = UserStore::new();
    store.upsert(&record("u1", "a@b.com"));
    assert!(matches!(
        User::from_cookie(&store, &None),
        Err(Error::Authentication)
    ));
    let resolved = User::from_cookie(&store, &Some("u1".to_owned())).unwrap();
    assert_eq!(resolved.id, "u1");
    assert!(matches!(
        User::from_cookie(&store, &Some("u9".to_owned())),
        Err(Error::NotFound)
    ));
}

#[test]
fn authorized_set_permissions_replaces_the_set() {
    let mut store = UserStore::new();
    store.upsert(&record("u1", "a@b.com"));
    let admin = requester(vec![Permission::ManageUsers]);
    UserMutation
        .set_permissions(&admin, &mut store, "u1", vec![Permission::ViewUsers])
        .unwrap();
    // Replacement is not additive: a second call drops the first set.
    let row = UserMutation
        .set_permissions(&admin, &mut store, "u1", vec![Permission::ManagePages])
        .unwrap();
    assert_eq!(row.permissions, vec![Permission::ManagePages]);
    assert!(matches!(
        UserMutation.set_permissions(&admin, &mut store, "u9", vec![]),
        Err(Error::NotFound)
    ));
}

#[test]
fn has_permission_checks_membership() {
    let user = requester(vec![Permission::ViewUsers, Permission::ManagePages]).unwrap();
    assert!(user.has_permission(&Permission::ViewUsers));
    assert!(user.has_permission(&Permission::ManagePages));
    assert!(!user.has_permission(&Permission::ManageUsers));
}
