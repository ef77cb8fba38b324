//! Properties that hold across the library's operations.

use vstd::prelude::*;
use crate::crypto::{is_stored_hash_of, spec_password_matches};
use crate::errors::{ServiceError, spec_reply_text, spec_status};
use crate::handlers::{LoginVerdict, UserLookup, spec_login_lookup, spec_login_verdict};
use crate::serializers::{
    Claims, TOKEN_LIFETIME_SECS as LIFETIME, SuperuserInfo, TOKEN_LIFETIME_SECS, UserId, UserInfo, spec_claims_issued,
    spec_superuser_info, spec_user_info,
};
use crate::users::{NewUserEncrypted, NewUserPlain, User, keeps_profile};
use vstd::std_specs::convert::FromSpec;
use crate::tokens::{
    TOKEN_LEEWAY_SECS, jwt_signed_claims, spec_claims_from_map, spec_claims_map, spec_token_user,
    token_current,
};

verus! {

/// A superuser whose stored hash was made from a password (so that the
/// password matches it, as `NewUserEncrypted::from_plain` ensures) is let in
/// with that password, and refused with any password that does not match.
pub proof fn law_superuser_logs_in_with_matching_password(user: User, password: Seq<char>)
    requires
        user.superuser,
    ensures
        spec_password_matches(user.password@, password) == Some(true)
            ==> spec_login_verdict(Some(user), Some(password)) is Accepted,
        spec_password_matches(user.password@, password) != Some(true)
            ==> spec_login_verdict(Some(user), Some(password)) is Unauthorized,
{
}

/// An ordinary account is let in whatever password the request gives, or
/// without one; a superuser is never let in without a password.
pub proof fn law_password_only_guards_superusers(user: User, password: Option<Seq<char>>)
    ensures
        !user.superuser ==> spec_login_verdict(Some(user), password) is Accepted,
        user.superuser && password is None ==> spec_login_verdict(Some(user), password) is PasswordRequired,
{
}

/// Accounts are created as ordinary accounts, so an account stored as
/// `NewUserEncrypted::from_plain` prepared it is let in on its email or phone
/// alone, whatever password the request gives.
pub proof fn law_new_accounts_log_in_without_password(
    prepared: NewUserEncrypted,
    submitted: NewUserPlain,
    stored: User,
    password: Option<Seq<char>>,
)
    requires
        keeps_profile(prepared, submitted),
        stored.superuser == prepared.superuser,
    ensures
        spec_login_verdict(Some(stored), password) is Accepted,
{
}

/// Nobody is let in as an account that the lookup did not find.
pub proof fn law_missing_account_is_refused(password: Option<Seq<char>>)
    ensures
        spec_login_verdict(None, password) is Unauthorized,
{
}

/// A token's claims identify the user it was issued to, and it expires
/// exactly `TOKEN_LIFETIME_SECS` after it was issued.
pub proof fn law_token_identifies_its_user(user_id: i32, now: int)
    requires
        i64::MIN <= now <= i64::MAX - TOKEN_LIFETIME_SECS,
    ensures
        <UserId as FromSpec<Claims>>::from_spec(spec_claims_issued(user_id, now)) == (UserId { id: user_id }),
        spec_claims_issued(user_id, now).exp - spec_claims_issued(user_id, now).iat == TOKEN_LIFETIME_SECS,
{
}

/// A token reads back as the user it was issued to: where a token's signed
/// payload is that of some claims (as `UserId::token_at` ensures of the
/// tokens it issues), the claims read from it are exactly those claims, so
/// `UserId::from_token_at` gives the user id they name at every time up to
/// `TOKEN_LEEWAY_SECS` after their expiry.
pub proof fn law_token_round_trip(token: Seq<char>, secret: Seq<u8>, c: Claims, now: int)
    requires
        jwt_signed_claims(token, secret) == Some(spec_claims_map(c)),
    ensures
        spec_claims_from_map(jwt_signed_claims(token, secret)->0) == Some(c),
        now <= c.exp + TOKEN_LEEWAY_SECS ==> token_current(c.exp as int, now),
{
    reveal_strlit("iat");
    reveal_strlit("exp");
    reveal_strlit("user_id");
    assert("iat"@.len() != "user_id"@.len());
    assert("exp"@.len() != "user_id"@.len());
    assert("iat"@[0] != "exp"@[0]);
    let m = spec_claims_map(c);
    assert(m["iat"@] == c.iat);
    assert(m["exp"@] == c.exp);
    assert(m["user_id"@] == c.user_id as i64);
}

/// The salt is recorded in a stored hash: the same password (or any other)
/// hashed with two different usable salts gives two different stored hashes.
pub proof fn law_salts_give_distinct_hashes(
    h1: Seq<char>,
    h2: Seq<char>,
    p1: Seq<char>,
    p2: Seq<char>,
    s1: Seq<u8>,
    s2: Seq<u8>,
)
    requires
        is_stored_hash_of(h1, p1, s1),
        is_stored_hash_of(h2, p2, s2),
        vstd::utf8::encode_utf8(p2).len() <= u32::MAX,
        8 <= s2.len() <= u32::MAX,
        s1 != s2,
    ensures
        h1 != h2,
{
    assert(crate::crypto::spec_password_hash(p2, s2) != h1);
}

/// A stored account and its public part give the same user id, and the
/// public part keeps the superuser flag.
pub proof fn law_public_part_keeps_identity(user: User)
    ensures
        <UserId as FromSpec<&UserInfo>>::from_spec(&spec_user_info(user))
            == <UserId as FromSpec<&User>>::from_spec(&user),
        spec_user_info(user).superuser == user.superuser,
{
}

/// An account passes as a superuser's exactly where it is one, and passes
/// unchanged.
pub proof fn law_superuser_check(info: UserInfo)
    ensures
        spec_superuser_info(info) is Ok <==> info.superuser,
        spec_superuser_info(info) matches Ok(s) ==> s == SuperuserInfo(info),
{
}

/// Different kinds of error get different status codes; only an
/// unauthorized request is answered without a body.
pub proof fn law_error_replies_are_distinct(a: ServiceError, b: ServiceError)
    ensures
        spec_status(a) == spec_status(b) <==> (
            (a is InternalServerError && b is InternalServerError)
            || (a is BadRequest && b is BadRequest)
            || (a is Unauthorized && b is Unauthorized)
            || (a is Forbidden && b is Forbidden)),
        spec_reply_text(a) is None <==> a is Unauthorized,
{
}

/// The public view of an account keeps every profile field of the account
/// as it is, whoever the account belongs to: `UserInfo::from` copies the
/// id, the names, the email, the phone and the superuser flag.
pub proof fn law_public_view_keeps_profile(user: User)
    ensures
        <UserInfo as FromSpec<User>>::obeys_from_spec(),
        <UserInfo as FromSpec<User>>::from_spec(user).id == user.id,
        <UserInfo as FromSpec<User>>::from_spec(user).first_name == user.first_name,
        <UserInfo as FromSpec<User>>::from_spec(user).last_name == user.last_name,
        <UserInfo as FromSpec<User>>::from_spec(user).middle_name == user.middle_name,
        <UserInfo as FromSpec<User>>::from_spec(user).email == user.email,
        <UserInfo as FromSpec<User>>::from_spec(user).phone == user.phone,
        <UserInfo as FromSpec<User>>::from_spec(user).superuser == user.superuser,
{
}

/// The user id taken from an account, from its public view or from a
/// token's claims is the id that they carry, for every account,
/// superusers included.
pub proof fn law_user_id_is_the_account_id(user: User, info: UserInfo, claims: Claims)
    ensures
        <UserId as FromSpec<&User>>::obeys_from_spec(),
        <UserId as FromSpec<&User>>::from_spec(&user).id == user.id,
        <UserId as FromSpec<&UserInfo>>::obeys_from_spec(),
        <UserId as FromSpec<&UserInfo>>::from_spec(&info).id == info.id,
        <UserId as FromSpec<Claims>>::obeys_from_spec(),
        <UserId as FromSpec<Claims>>::from_spec(claims).id == claims.user_id,
{
}

/// A login looks the account up by exactly the credentials it gives: an
/// email alone by that email, a phone alone by that phone, both by both, and
/// neither names no account; whatever the strings hold.
pub proof fn law_login_lookup_uses_given_credentials(email: String, phone: String)
    ensures
        spec_login_lookup(Some(email), None) == Some(UserLookup::Email(email)),
        spec_login_lookup(None, Some(phone)) == Some(UserLookup::Phone(phone)),
        spec_login_lookup(Some(email), Some(phone))
            == Some(UserLookup::PhoneAndEmail { phone: phone, email: email }),
        spec_login_lookup(None, None) is None,
{
}

/// A token issued at time `issued` (as `UserId::token_at` issues it, and
/// `UserId::get_token` at the clock's reading) is accepted for its user by
/// `UserId::from_token_at` at every time from its issue until thirty days
/// and `TOKEN_LEEWAY_SECS` later, whenever it was issued and whoever it names,
/// and refused after that.
pub proof fn law_token_valid_for_thirty_days(token: Seq<char>, secret: Seq<u8>, id: i32, issued: int, now: int)
    requires
        0 <= issued <= Claims::latest_issue_time(),
        jwt_signed_claims(token, secret) == Some(spec_claims_map(spec_claims_issued(id, issued))),
    ensures
        now <= issued + 30 * 24 * 60 * 60 + 60 ==> spec_token_user(jwt_signed_claims(token, secret)->0, now)
            == Ok::<UserId, ServiceError>(UserId { id }),
        now > issued + 30 * 24 * 60 * 60 + 60 ==> spec_token_user(jwt_signed_claims(token, secret)->0, now)
            == Err::<UserId, ServiceError>(ServiceError::InternalServerError),
{
    law_token_round_trip(token, secret, spec_claims_issued(id, issued), now);
    assert(LIFETIME == 30 * 24 * 60 * 60);
    assert(TOKEN_LEEWAY_SECS == 60);
}

} // verus!
