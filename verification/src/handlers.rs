//! The decisions behind logging in, looking a user up and registering.
//!
//! The storage layer runs the queries; these functions say which query to
//! run and what the service answers for what it found.

use vstd::prelude::*;
use crate::crypto::{hash_input_accepted, is_stored_hash_of, spec_password_matches};
use crate::errors::ServiceError;
use crate::serializers::{UserInfo, spec_user_info};
use crate::text::{decimal_string, spec_decimal};
use crate::users::{NewUserEncrypted, NewUserPlain, User, keeps_profile};

verus! {

/// The credentials of a login request.
#[derive(Debug)]
pub struct AuthData {
    pub email: Option<String>,
    pub phone: Option<String>,
    pub password: Option<String>,
}

/// A request for the account with this id.
#[derive(Debug, Clone, Copy, PartialEq, Eq)]
pub struct UserRequest(pub i32);

/// A request to register this account.
pub struct NewUserRequest(pub NewUserPlain);

/// Which account a login request names: the one with this email, the one
/// with this phone, or the one with both.
#[derive(Debug)]
pub enum UserLookup {
    Email(String),
    Phone(String),
    PhoneAndEmail { phone: String, email: String },
}

/// The outcome of a login attempt for a found (or missing) account.
pub enum LoginVerdict {
    Accepted,
    Unauthorized,
    PasswordRequired,
}

/// The account that a login request names, where it names one.
pub open spec fn spec_login_lookup(email: Option<String>, phone: Option<String>) -> Option<UserLookup> {
    match (email, phone) {
        (Some(e), None) => Some(UserLookup::Email(e)),
        (None, Some(p)) => Some(UserLookup::Phone(p)),
        (Some(e), Some(p)) => Some(UserLookup::PhoneAndEmail { phone: p, email: e }),
        (None, None) => None,
    }
}

/// The view of an optional string.
pub open spec fn opt_view(s: Option<String>) -> Option<Seq<char>> {
    match s {
        Some(t) => Some(t@),
        None => None,
    }
}

/// The outcome of a login attempt: no account means no entry; an ordinary
/// account is let in on its email or phone alone; a superuser must give a
/// password, and only one that matches the stored hash lets them in.
pub open spec fn spec_login_verdict(user: Option<User>, password: Option<Seq<char>>) -> LoginVerdict {
    match user {
        None => LoginVerdict::Unauthorized,
        Some(u) => if !u.superuser {
            LoginVerdict::Accepted
        } else {
            match password {
                None => LoginVerdict::PasswordRequired,
                Some(p) => if spec_password_matches(u.password@, p) == Some(true) {
                    LoginVerdict::Accepted
                } else {
                    LoginVerdict::Unauthorized
                },
            }
        },
    }
}

/// The message of the refusal to let a superuser in without a password.
pub open spec fn password_required_text() -> Seq<char> {
    "Password should be supplied for superuser accounts"@
}

/// The account a login request names: by email, by phone, or by both where
/// it gives both; a request that gives neither is unauthorized.
pub fn login_lookup(email: Option<String>, phone: Option<String>) -> (res: Result<UserLookup, ServiceError>)
    ensures
        match spec_login_lookup(email, phone) {
            Some(l) => res == Ok::<UserLookup, ServiceError>(l),
            None => res matches Err(ServiceError::Unauthorized),
        },
        phone is None ==> (email matches Some(e) ==> res == Ok::<UserLookup, ServiceError>(UserLookup::Email(e))),
        email is None ==> (phone matches Some(p) ==> res == Ok::<UserLookup, ServiceError>(UserLookup::Phone(p))),
        email is None && phone is None ==> res matches Err(ServiceError::Unauthorized),
{
    match (email, phone) {
        (Some(e), None) => Ok(UserLookup::Email(e)),
        (None, Some(p)) => Ok(UserLookup::Phone(p)),
        (Some(e), Some(p)) => Ok(UserLookup::PhoneAndEmail { phone: p, email: e }),
        (None, None) => Err(ServiceError::Unauthorized),
    }
}

/// The answer to a login attempt, given the account that the lookup found
/// (if any) and the password the request gave (if any); see
/// `spec_login_verdict`. An accepted login answers with the account's public
/// part; a superuser without a password is forbidden; every other refusal is
/// unauthorized, a stored hash that cannot be checked included.
pub fn authorize_login(user: Option<User>, password: Option<String>) -> (res: Result<UserInfo, ServiceError>)
    ensures
        match spec_login_verdict(user, opt_view(password)) {
            LoginVerdict::Accepted => res == Ok::<UserInfo, ServiceError>(spec_user_info(user->0)),
            LoginVerdict::Unauthorized => res matches Err(ServiceError::Unauthorized),
            LoginVerdict::PasswordRequired => res matches Err(ServiceError::Forbidden(m))
                && m@ == password_required_text(),
        },
{
    match user {
        Some(user) => {
            if !user.superuser {
                return Ok(UserInfo::from(user));
            }
            match password {
                Some(password) => match user.check_password(password.as_str()) {
                    Ok(valid) => {
                        if valid {
                            Ok(UserInfo::from(user))
                        } else {
                            Err(ServiceError::Unauthorized)
                        }
                    },
                    Err(_) => Err(ServiceError::Unauthorized),
                },
                None => Err(
                    ServiceError::Forbidden(
                        String::from_str("Password should be supplied for superuser accounts"),
                    ),
                ),
            }
        },
        None => Err(ServiceError::Unauthorized),
    }
}

/// The message of the answer to a request for an account that is not there.
pub open spec fn missing_user_text(id: i32) -> Seq<char> {
    "no user with id "@ + spec_decimal(id as int)
}

/// The answer to a request for an account, given what the lookup found: its
/// public part, or a bad request naming the id.
pub fn user_info_for(request: UserRequest, user: Option<User>) -> (res: Result<UserInfo, ServiceError>)
    ensures
        match user {
            Some(u) => res == Ok::<UserInfo, ServiceError>(spec_user_info(u)),
            None => res matches Err(ServiceError::BadRequest(m)) && m@ == missing_user_text(request.0),
        },
{
    match user {
        Some(user) => Ok(UserInfo::from(user)),
        None => {
            let mut m = String::from_str("no user with id ");
            m.append(decimal_string(request.0).as_str());
            Err(ServiceError::BadRequest(m))
        },
    }
}

/// The account to store for a registration request (see
/// `NewUserEncrypted::from_plain`). Where hashing the password fails, the
/// answer is that of `ServiceError::from_argon2`: a bad request for a
/// password too long to hash, an internal error for a salt of unusable
/// length.
pub fn prepare_registration(request: NewUserRequest, salt: &[u8]) -> (res: Result<NewUserEncrypted, ServiceError>)
    ensures
        res matches Ok(e) ==> keeps_profile(e, request.0),
        match request.0.password {
            None => res matches Ok(e) && e.password@ == Seq::<char>::empty(),
            Some(p) => {
                let pwd_len = vstd::utf8::encode_utf8(p@).len();
                &&& res is Ok <==> hash_input_accepted(pwd_len, salt@.len())
                &&& res matches Ok(e) ==> is_stored_hash_of(e.password@, p@, salt@)
                &&& res matches Err(err) ==> if pwd_len > u32::MAX {
                    err matches ServiceError::BadRequest(m)
                        && m@ == "password length error: "@ + "Password is too long"@
                } else {
                    err is InternalServerError
                }
            },
        },
{
    match NewUserEncrypted::from_plain(request.0, salt) {
        Ok(user) => Ok(user),
        Err(e) => Err(ServiceError::from_argon2(e)),
    }
}

} // verus!
