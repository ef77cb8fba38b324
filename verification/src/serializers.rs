//! What the service tells clients about users, and the claims of the tokens
//! that identify them.

use vstd::prelude::*;
use crate::clock::unix_now;
use crate::errors::ServiceError;
use crate::users::User;

verus! {

/// The public part of a user account: everything but the password hash and
/// the record's times.
#[derive(Debug)]
pub struct UserInfo {
    pub id: i32,
    pub first_name: String,
    pub last_name: String,
    pub middle_name: String,
    pub email: String,
    pub phone: String,
    pub superuser: bool,
}

/// The public part of an account that is known to be a superuser's.
#[derive(Debug)]
pub struct SuperuserInfo(pub UserInfo);

/// Why an account could not be taken as a superuser's.
#[derive(Debug, Clone, Copy, PartialEq, Eq)]
pub enum SuperuserConversionError {
    NotSuperuser,
}

/// The identity of a user, as tokens carry it.
#[derive(Debug, Clone, Copy, PartialEq, Eq)]
pub struct UserId {
    pub id: i32,
}

/// The claims of an authentication token: when it was issued and when it
/// expires, in seconds since the UNIX epoch, and whose it is.
#[derive(Debug, Clone, Copy, PartialEq, Eq)]
pub struct Claims {
    pub iat: i64,
    pub exp: i64,
    pub user_id: i32,
}

/// How long a token stays valid: thirty days, in seconds.
pub const TOKEN_LIFETIME_SECS: i64 = 2_592_000i64;

/// The public part of a stored account.
pub open spec fn spec_user_info(user: User) -> UserInfo {
    UserInfo {
        id: user.id,
        first_name: user.first_name,
        last_name: user.last_name,
        middle_name: user.middle_name,
        email: user.email,
        phone: user.phone,
        superuser: user.superuser,
    }
}

impl From<User> for UserInfo {
    fn from(user: User) -> (info: UserInfo)
        ensures
            info.id == user.id,
            info.first_name == user.first_name,
            info.last_name == user.last_name,
            info.middle_name == user.middle_name,
            info.email == user.email,
            info.phone == user.phone,
            info.superuser == user.superuser,
    {
        UserInfo {
            id: user.id,
            first_name: user.first_name,
            last_name: user.last_name,
            middle_name: user.middle_name,
            email: user.email,
            phone: user.phone,
            superuser: user.superuser,
        }
    }
}

impl vstd::std_specs::convert::FromSpecImpl<User> for UserInfo {
    open spec fn obeys_from_spec() -> bool {
        true
    }

    open spec fn from_spec(v: User) -> UserInfo {
        spec_user_info(v)
    }
}

/// An account taken as a superuser's: accepted exactly where it is one.
pub open spec fn spec_superuser_info(info: UserInfo) -> Result<SuperuserInfo, SuperuserConversionError> {
    if info.superuser {
        Ok(SuperuserInfo(info))
    } else {
        Err(SuperuserConversionError::NotSuperuser)
    }
}

impl TryFrom<UserInfo> for SuperuserInfo {
    type Error = SuperuserConversionError;

    fn try_from(user_info: UserInfo) -> (r: Result<SuperuserInfo, SuperuserConversionError>) {
        if user_info.superuser {
            Ok(SuperuserInfo(user_info))
        } else {
            Err(SuperuserConversionError::NotSuperuser)
        }
    }
}

impl vstd::std_specs::convert::TryFromSpecImpl<UserInfo> for SuperuserInfo {
    open spec fn obeys_try_from_spec() -> bool {
        true
    }

    open spec fn try_from_spec(v: UserInfo) -> Result<SuperuserInfo, SuperuserConversionError> {
        spec_superuser_info(v)
    }
}

impl SuperuserConversionError {
    /// The service's answer to a request that needs a superuser: forbidden,
    /// with the message "must be a superuser".
    pub fn into(self) -> (e: ServiceError)
        ensures
            e matches ServiceError::Forbidden(m) && m@ == "must be a superuser"@,
    {
        match self {
            SuperuserConversionError::NotSuperuser => ServiceError::Forbidden(
                String::from_str("must be a superuser"),
            ),
        }
    }
}

impl<'a> From<&'a User> for UserId {
    fn from(source: &'a User) -> (r: UserId)
        ensures
            r.id == source.id,
    {
        UserId { id: source.id }
    }
}

impl<'a> vstd::std_specs::convert::FromSpecImpl<&'a User> for UserId {
    open spec fn obeys_from_spec() -> bool {
        true
    }

    open spec fn from_spec(v: &'a User) -> UserId {
        UserId { id: v.id }
    }
}

impl<'a> From<&'a UserInfo> for UserId {
    fn from(source: &'a UserInfo) -> (r: UserId)
        ensures
            r.id == source.id,
    {
        UserId { id: source.id }
    }
}

impl<'a> vstd::std_specs::convert::FromSpecImpl<&'a UserInfo> for UserId {
    open spec fn obeys_from_spec() -> bool {
        true
    }

    open spec fn from_spec(v: &'a UserInfo) -> UserId {
        UserId { id: v.id }
    }
}

impl From<Claims> for UserId {
    fn from(claims: Claims) -> (r: UserId)
        ensures
            r.id == claims.user_id,
    {
        UserId { id: claims.user_id }
    }
}

impl vstd::std_specs::convert::FromSpecImpl<Claims> for UserId {
    open spec fn obeys_from_spec() -> bool {
        true
    }

    open spec fn from_spec(v: Claims) -> UserId {
        UserId { id: v.user_id }
    }
}

/// The claims of a token issued to `user_id` at time `now`.
pub open spec fn spec_claims_issued(user_id: i32, now: int) -> Claims {
    Claims { iat: now as i64, exp: (now + TOKEN_LIFETIME_SECS) as i64, user_id }
}

impl Claims {
    /// The claims of a token issued to `user_id` at time `now`: it expires
    /// `TOKEN_LIFETIME_SECS` later.
    pub fn issued_at(user_id: i32, now: i64) -> (c: Claims)
        requires
            now <= i64::MAX - TOKEN_LIFETIME_SECS,
        ensures
            c == spec_claims_issued(user_id, now as int),
    {
        Claims { iat: now, exp: now + TOKEN_LIFETIME_SECS, user_id }
    }

    /// The latest clock reading, in seconds since the UNIX epoch, at which a
    /// token can be issued: its expiry must fit in an `i64`.
    pub open spec fn latest_issue_time() -> int {
        i64::MAX - TOKEN_LIFETIME_SECS
    }

    /// The claims of a token issued to `user_id` when the clock reads `now`
    /// seconds after the UNIX epoch; `None` where the expiry would not fit in
    /// an `i64`.
    pub fn issued_at_checked(user_id: i32, now: u64) -> (c: Option<Claims>)
        ensures
            c == (if now <= Self::latest_issue_time() {
                Some(spec_claims_issued(user_id, now as int))
            } else {
                None
            }),
    {
        if now <= (i64::MAX - TOKEN_LIFETIME_SECS) as u64 {
            Some(Claims::issued_at(user_id, now as i64))
        } else {
            None
        }
    }

    /// The claims of a token issued to `user_id` now, by the system clock
    /// (see `issued_at_checked`); `None` also where the clock reads before the
    /// UNIX epoch.
    pub fn with_user_id(user_id: i32) -> (c: Option<Claims>)
        ensures
            c matches Some(c) ==> exists|now: u64| #![trigger spec_claims_issued(user_id, now as int)]
                now <= Self::latest_issue_time() && c == spec_claims_issued(user_id, now as int),
    {
        match unix_now() {
            Some(now) => Claims::issued_at_checked(user_id, now),
            None => None,
        }
    }
}

} // verus!
