//! User records and the passwords stored with them.

use vstd::prelude::*;
use chrono::NaiveDateTime;
use crate::crypto::{
    Argon2Error, hash_input_accepted, hash_input_error, hash_input_error_text, hash_password_inner,
    encoded_outline, is_stored_hash_of, spec_password_matches, verify_password, Argon2ErrorKind,
};

verus! {

/// A stored user account. `password` holds the encoded hash of the user's
/// password, or the empty string for an account created without one.
pub struct User {
    pub id: i32,
    pub first_name: String,
    pub last_name: String,
    pub middle_name: String,
    pub email: String,
    pub phone: String,
    pub password: String,
    pub superuser: bool,
    pub created_at: NaiveDateTime,
    pub updated_at: NaiveDateTime,
}

/// A user account about to be stored, with its password already hashed.
pub struct NewUserEncrypted {
    pub first_name: String,
    pub last_name: String,
    pub middle_name: String,
    pub email: String,
    pub phone: String,
    pub password: String,
    pub superuser: bool,
}

/// A user account as a client submits it for registration, with the password
/// (if any) in clear.
pub struct NewUserPlain {
    pub first_name: String,
    pub last_name: String,
    pub middle_name: String,
    pub email: String,
    pub phone: String,
    pub password: Option<String>,
}

impl User {
    /// Checks `password` against the hash stored for this user.
    ///
    /// `Ok(b)` where `spec_password_matches(self.password, password)` is
    /// `Some(b)`, an error where it is `None`. A stored string that is not an
    /// encoded hash in outline (see `encoded_outline`), such as the empty
    /// string of an account created without a password, gives a
    /// `DecodingFail` error for every password.
    pub fn check_password(&self, password: &str) -> (res: Result<bool, Argon2Error>)
        ensures
            match res {
                Ok(b) => spec_password_matches(self.password@, password@) == Some(b),
                Err(_) => spec_password_matches(self.password@, password@) is None,
            },
            !encoded_outline(self.password@) ==> (res matches Err(e) && e.kind == Argon2ErrorKind::DecodingFail),
    {
        verify_password(self.password.as_str(), password)
    }
}

/// Whether `e` carries over every profile field of `user`, and is no superuser.
pub open spec fn keeps_profile(e: NewUserEncrypted, user: NewUserPlain) -> bool {
    &&& e.first_name == user.first_name
    &&& e.last_name == user.last_name
    &&& e.middle_name == user.middle_name
    &&& e.email == user.email
    &&& e.phone == user.phone
    &&& !e.superuser
}

impl NewUserEncrypted {
    /// Prepares a submitted account for storage: the password, where one is
    /// given, is hashed with `salt` (see `hash_password_inner`); an account
    /// without one is stored with the empty string. New accounts are never
    /// superusers.
    ///
    /// Fails only where Argon2 refuses the password's or the salt's length,
    /// with that error.
    pub fn from_plain(user: NewUserPlain, salt: &[u8]) -> (res: Result<Self, Argon2Error>)
        ensures
            res matches Ok(e) ==> keeps_profile(e, user),
            match user.password {
                None => res matches Ok(e) && e.password@ == Seq::<char>::empty(),
                Some(p) => {
                    let pwd_len = vstd::utf8::encode_utf8(p@).len();
                    &&& res is Ok <==> hash_input_accepted(pwd_len, salt@.len())
                    &&& res matches Ok(e) ==> is_stored_hash_of(e.password@, p@, salt@)
                    &&& res matches Err(err) ==> err.kind == hash_input_error(pwd_len, salt@.len())
                        && err.text@ == hash_input_error_text(pwd_len, salt@.len())
                },
            },
    {
        let password = match user.password {
            Some(password) => {
                match hash_password_inner(password.as_str(), salt) {
                    Ok(hash) => hash,
                    Err(e) => return Err(e),
                }
            },
            None => String::new(),
        };
        Ok(NewUserEncrypted {
            first_name: user.first_name,
            last_name: user.last_name,
            middle_name: user.middle_name,
            email: user.email,
            phone: user.phone,
            password,
            superuser: false,
        })
    }
}

} // verus!
