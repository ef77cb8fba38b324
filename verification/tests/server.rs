use chrono::{DateTime, NaiveDateTime};
use mondrian::crypto::{hash_password_inner, Argon2Error, Argon2ErrorKind};
use mondrian::errors::{DbError, ServiceError};
use mondrian::extractors::{identity_token, superuser_info, user_request};
use mondrian::handlers::{
    authorize_login, login_lookup, prepare_registration, user_info_for, NewUserRequest,
    UserLookup, UserRequest,
};
use mondrian::serializers::{
    Claims, SuperuserConversionError, SuperuserInfo, UserId, UserInfo, TOKEN_LIFETIME_SECS,
};
use mondrian::text::decimal_string;
use mondrian::users::{NewUserPlain, User};
use std::convert::TryFrom;

const SALT: &[u8] = b"TEST SALT";

fn epoch() -> NaiveDateTime {
    DateTime::from_timestamp(0, 0).unwrap().naive_utc()
}

fn user(id: i32, password: String, superuser: bool) -> User {
    User {
        id,
        first_name: "Grace".to_owned(),
        last_name: "Hopper".to_owned(),
        middle_name: "Brewster".to_owned(),
        email: "grace@example.com".to_owned(),
        phone: "+200".to_owned(),
        password,
        superuser,
        created_at: epoch(),
        updated_at: epoch(),
    }
}

fn info(id: i32, superuser: bool) -> UserInfo {
    UserInfo::from(user(id, String::new(), superuser))
}

fn bad_request_text(e: ServiceError) -> String {
    match e {
        ServiceError::BadRequest(m) => m,
        other => panic!("expected a bad request, got {:?}", other),
    }
}

fn forbidden_text(e: ServiceError) -> String {
    match e {
        ServiceError::Forbidden(m) => m,
        other => panic!("expected forbidden, got {:?}", other),
    }
}

#[test]
fn error_messages() {
    assert_eq!(ServiceError::InternalServerError.message(), "Internal Server Error");
    assert_eq!(ServiceError::BadRequest("oops".to_owned()).message(), "BadRequest: oops");
    assert_eq!(ServiceError::Unauthorized.message(), "Anauthorized");
    assert_eq!(ServiceError::Forbidden("no".to_owned()).message(), "Forbidden: no");
}

#[test]
fn error_replies() {
    let r = ServiceError::InternalServerError.error_response();
    assert_eq!(r.status, 500);
    assert_eq!(r.json_text.as_deref(), Some("Internal Server Error"));
    let r = ServiceError::BadRequest("taken".to_owned()).error_response();
    assert_eq!(r.status, 400);
    assert_eq!(r.json_text.as_deref(), Some("taken"));
    let r = ServiceError::Unauthorized.error_response();
    assert_eq!(r.status, 401);
    assert_eq!(r.json_text, None);
    let r = ServiceError::Forbidden("must be a superuser".to_owned()).error_response();
    assert_eq!(r.status, 403);
    assert_eq!(r.json_text.as_deref(), Some("must be a superuser"));
}

#[test]
fn argon2_errors_become_service_errors() {
    let long = Argon2Error { kind: Argon2ErrorKind::PwdTooLong, text: "Password is too long".to_owned() };
    assert_eq!(
        bad_request_text(ServiceError::from_argon2(long)),
        "password length error: Password is too long"
    );
    let short = Argon2Error { kind: Argon2ErrorKind::PwdTooShort, text: "Password is too short".to_owned() };
    assert_eq!(
        bad_request_text(ServiceError::from_argon2(short)),
        "password length error: Password is too short"
    );
    let salt = Argon2Error { kind: Argon2ErrorKind::SaltTooShort, text: "Salt is too short".to_owned() };
    assert!(matches!(ServiceError::from_argon2(salt), ServiceError::InternalServerError));
}

#[test]
fn database_errors_become_service_errors() {
    let with_details = DbError::Database {
        unique_violation: true,
        message: "duplicate key".to_owned(),
        details: Some("Key (email)=(a@b) already exists.".to_owned()),
    };
    assert_eq!(bad_request_text(ServiceError::from(with_details)), "Key (email)=(a@b) already exists.");
    let without_details = DbError::Database {
        unique_violation: true,
        message: "duplicate key".to_owned(),
        details: None,
    };
    assert_eq!(bad_request_text(ServiceError::from(without_details)), "duplicate key");
    let other_kind = DbError::Database {
        unique_violation: false,
        message: "foreign key".to_owned(),
        details: Some("x".to_owned()),
    };
    assert!(matches!(ServiceError::from(other_kind), ServiceError::InternalServerError));
    assert!(matches!(ServiceError::from(DbError::Other), ServiceError::InternalServerError));
}

#[test]
fn user_info_keeps_public_fields() {
    let i = UserInfo::from(user(3, "hash".to_owned(), true));
    assert_eq!(i.id, 3);
    assert_eq!(i.first_name, "Grace");
    assert_eq!(i.last_name, "Hopper");
    assert_eq!(i.middle_name, "Brewster");
    assert_eq!(i.email, "grace@example.com");
    assert_eq!(i.phone, "+200");
    assert!(i.superuser);
}

#[test]
fn user_ids() {
    let u = user(11, String::new(), false);
    assert_eq!(UserId::from(&u), UserId { id: 11 });
    let i = UserInfo::from(u);
    assert_eq!(UserId::from(&i), UserId { id: 11 });
    let c = Claims { iat: 1, exp: 2, user_id: 12 };
    assert_eq!(UserId::from(c), UserId { id: 12 });
}

#[test]
fn superuser_conversion() {
    let s = SuperuserInfo::try_from(info(5, true)).unwrap();
    assert_eq!(s.0.id, 5);
    let e = SuperuserInfo::try_from(info(6, false)).unwrap_err();
    assert_eq!(e, SuperuserConversionError::NotSuperuser);
    assert_eq!(forbidden_text(e.into()), "must be a superuser");
}

#[test]
fn claims_expire_after_thirty_days() {
    let c = Claims::issued_at(9, 1_000);
    assert_eq!(c, Claims { iat: 1_000, exp: 2_593_000, user_id: 9 });
    assert_eq!(TOKEN_LIFETIME_SECS, 30 * 24 * 60 * 60);
    let before = chrono::Utc::now().timestamp();
    let c = Claims::with_user_id(4).unwrap();
    let after = chrono::Utc::now().timestamp();
    assert_eq!(c.user_id, 4);
    assert_eq!(c.exp - c.iat, TOKEN_LIFETIME_SECS);
    assert!(before <= c.iat && c.iat <= after);
    assert_eq!(UserId::from(c), UserId { id: 4 });
}

#[test]
fn decimal_notation() {
    for n in [0, 7, 10, 42, 1234567890, -1, -42, i32::MAX, i32::MIN] {
        assert_eq!(decimal_string(n), n.to_string());
    }
}

#[test]
fn login_lookup_by_credentials() {
    assert!(matches!(
        login_lookup(Some("e".to_owned()), None),
        Ok(UserLookup::Email(e)) if e == "e"
    ));
    assert!(matches!(
        login_lookup(None, Some("p".to_owned())),
        Ok(UserLookup::Phone(p)) if p == "p"
    ));
    assert!(matches!(
        login_lookup(Some("e".to_owned()), Some("p".to_owned())),
        Ok(UserLookup::PhoneAndEmail { phone, email }) if phone == "p" && email == "e"
    ));
    assert!(matches!(login_lookup(None, None), Err(ServiceError::Unauthorized)));
}

#[test]
fn login_of_missing_account_is_unauthorized() {
    assert!(matches!(authorize_login(None, Some("x".to_owned())), Err(ServiceError::Unauthorized)));
    assert!(matches!(authorize_login(None, None), Err(ServiceError::Unauthorized)));
}

#[test]
fn ordinary_account_logs_in_without_password() {
    let r = authorize_login(Some(user(1, "whatever".to_owned(), false)), None).unwrap();
    assert_eq!(r.id, 1);
    let r = authorize_login(Some(user(1, String::new(), false)), Some("wrong".to_owned())).unwrap();
    assert_eq!(r.id, 1);
}

#[test]
fn superuser_needs_password() {
    let e = authorize_login(Some(user(2, String::new(), true)), None).unwrap_err();
    assert_eq!(forbidden_text(e), "Password should be supplied for superuser accounts");
}

#[test]
fn superuser_with_matching_password_logs_in() {
    let hash = hash_password_inner("s3cret", SALT).unwrap();
    let r = authorize_login(Some(user(3, hash.clone(), true)), Some("s3cret".to_owned())).unwrap();
    assert_eq!(r.id, 3);
    assert!(r.superuser);
    let e = authorize_login(Some(user(3, hash, true)), Some("guess".to_owned())).unwrap_err();
    assert!(matches!(e, ServiceError::Unauthorized));
}

#[test]
fn superuser_with_unusable_hash_is_unauthorized() {
    let e = authorize_login(Some(user(4, String::new(), true)), Some("x".to_owned())).unwrap_err();
    assert!(matches!(e, ServiceError::Unauthorized));
}

#[test]
fn missing_user_is_bad_request() {
    let e = user_info_for(UserRequest(42), None).unwrap_err();
    assert_eq!(bad_request_text(e), "no user with id 42");
    let e = user_info_for(UserRequest(-3), None).unwrap_err();
    assert_eq!(bad_request_text(e), "no user with id -3");
    let i = user_info_for(UserRequest(8), Some(user(8, String::new(), false))).unwrap();
    assert_eq!(i.id, 8);
}

fn new_user(password: Option<&str>) -> NewUserRequest {
    NewUserRequest(NewUserPlain {
        first_name: "Alan".to_owned(),
        last_name: "Turing".to_owned(),
        middle_name: "Mathison".to_owned(),
        email: "alan@example.com".to_owned(),
        phone: "+300".to_owned(),
        password: password.map(|p| p.to_owned()),
    })
}

#[test]
fn registration_with_unusable_salt_is_internal_error() {
    let e = match prepare_registration(new_user(Some("pw")), b"tiny") {
        Ok(_) => panic!("a short salt was accepted"),
        Err(e) => e,
    };
    assert!(matches!(e, ServiceError::InternalServerError));
}

#[test]
fn registration_without_password() {
    let e = match prepare_registration(new_user(None), b"tiny") {
        Ok(e) => e,
        Err(e) => panic!("registration failed: {:?}", e),
    };
    assert_eq!(e.password, "");
    assert!(!e.superuser);
    assert_eq!(e.email, "alan@example.com");
}

#[test]
fn identity_decisions() {
    assert!(matches!(identity_token(None), Err(ServiceError::InternalServerError)));
    assert!(matches!(identity_token(Some(None)), Err(ServiceError::Unauthorized)));
    assert_eq!(identity_token(Some(Some("tok".to_owned()))).unwrap(), "tok");
    assert!(matches!(user_request(false, Some(UserId { id: 1 })), Err(ServiceError::InternalServerError)));
    assert!(matches!(user_request(true, None), Err(ServiceError::Unauthorized)));
    assert_eq!(user_request(true, Some(UserId { id: 5 })).unwrap(), UserRequest(5));
}

#[test]
fn superuser_extraction() {
    assert!(matches!(superuser_info(Err(ServiceError::Unauthorized)), Err(ServiceError::Unauthorized)));
    assert_eq!(superuser_info(Ok(info(1, true))).unwrap().0.id, 1);
    let e = superuser_info(Ok(info(1, false))).unwrap_err();
    assert_eq!(forbidden_text(e), "must be a superuser");
}

#[test]
fn registration_hashes_password_that_then_checks() {
    let e = match prepare_registration(new_user(Some("pa55word")), SALT) {
        Ok(e) => e,
        Err(e) => panic!("registration failed: {:?}", e),
    };
    assert!(!e.superuser);
    assert_eq!(e.first_name, "Alan");
    let stored = user(21, e.password, e.superuser);
    assert_eq!(stored.check_password("pa55word").unwrap(), true);
    assert_eq!(stored.check_password("password").unwrap(), false);
}

#[test]
fn new_account_logs_in_without_password() {
    let e = match prepare_registration(new_user(Some("pa55word")), SALT) {
        Ok(e) => e,
        Err(e) => panic!("registration failed: {:?}", e),
    };
    let stored = user(22, e.password, e.superuser);
    let i = authorize_login(Some(stored), Some("not the password".to_owned())).unwrap();
    assert_eq!(i.id, 22);
    assert!(!i.superuser);
}
