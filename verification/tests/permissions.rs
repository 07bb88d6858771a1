use user_api::permissions::Permission;

const ALL: [Permission; 5] = [
    Permission::ViewUsers,
    Permission::ManageUsers,
    Permission::ManagePages,
    Permission::ViewUnpublishedPosts,
    Permission::ManagePosts,
];

#[test]
fn encoding_is_the_json_string_of_the_name() {
    assert_eq!(Permission::ViewUsers.to_text(), "\"ViewUsers\"");
    assert_eq!(Permission::ManageUsers.to_text(), "\"ManageUsers\"");
    assert_eq!(Permission::ManagePages.to_text(), "\"ManagePages\"");
    assert_eq!(
        Permission::ViewUnpublishedPosts.to_text(),
        "\"ViewUnpublishedPosts\""
    );
    assert_eq!(Permission::ManagePosts.to_text(), "\"ManagePosts\"");
}

#[test]
fn encoding_matches_a_json_encoder() {
    assert_eq!(
        Permission::ViewUsers.to_text(),
        serde_json::to_string("ViewUsers").unwrap()
    );
    assert_eq!(
        Permission::ManagePosts.to_text(),
        serde_json::to_string("ManagePosts").unwrap()
    );
}

#[test]
fn decoding_inverts_encoding() {
    for p in ALL {
        assert_eq!(Permission::from_text(&p.to_text()), Some(p));
    }
}

#[test]
fn decoding_fails_closed() {
    assert_eq!(Permission::from_text("ViewUsers"), None);
    assert_eq!(Permission::from_text("\"viewusers\""), None);
    assert_eq!(Permission::from_text(""), None);
    assert_eq!(Permission::from_text("\"ManageEverything\""), None);
}
