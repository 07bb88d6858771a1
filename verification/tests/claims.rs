use user_api::error::Error;
use user_api::user::{Claims, NewUser};

fn full_claims() -> Claims {
    Claims {
        sub: "u1".to_owned(),
        email: Some("a@b.com".to_owned()),
        name: Some("A B".to_owned()),
        picture: Some("p".to_owned()),
        given_name: Some("A".to_owned()),
        family_name: Some("B".to_owned()),
        locale: Some("en".to_owned()),
    }
}

#[test]
fn complete_claims_convert() {
    let record = NewUser::from_claims(full_claims()).unwrap();
    assert_eq!(record.id, "u1");
    assert_eq!(record.email, "a@b.com");
    assert_eq!(record.name, "A B");
    assert_eq!(record.picture, "p");
    assert_eq!(record.given_name, "A");
    assert_eq!(record.family_name, "B");
    assert_eq!(record.locale, "en");
}

#[test]
fn missing_fields_all_reported() {
    let mut claims = full_claims();
    claims.email = None;
    claims.picture = None;
    claims.locale = None;
    match NewUser::from_claims(claims) {
        Err(Error::MissingUserFields(names)) => {
            assert_eq!(names, vec!["email".to_owned(), "picture".to_owned(), "locale".to_owned()]);
        }
        other => panic!("expected a missing-fields error, got {:?}", other),
    }
}

#[test]
fn single_missing_field_reported() {
    let mut claims = full_claims();
    claims.family_name = None;
    match NewUser::from_claims(claims) {
        Err(Error::MissingUserFields(names)) => {
            assert_eq!(names, vec!["family_name".to_owned()]);
        }
        other => panic!("expected a missing-fields error, got {:?}", other),
    }
}

#[test]
fn missing_fields_error_status() {
    let mut claims = full_claims();
    claims.name = None;
    let err = NewUser::from_claims(claims).unwrap_err();
    assert_eq!(err.status_code(), 400);
}
