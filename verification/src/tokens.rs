//! Login tokens: JSON Web Tokens signed with HMAC-SHA256, through the
//! `jsonwebtoken` crate. A token's payload is a JSON object of integer
//! claims: `iat` (issued at), `exp` (expires at) and `user_id`.

use vstd::prelude::*;
use std::collections::BTreeMap;
use jsonwebtoken::errors::Error as JwtLibError;
use crate::clock::unix_now;
use crate::errors::ServiceError;
use crate::serializers::{Claims, UserId, spec_claims_issued};
use crate::text::count_char;

verus! {

/// The error type of the `jsonwebtoken` crate.
#[verifier::external_type_specification]
#[verifier::external_body]
pub struct ExJwtLibError(JwtLibError);

/// The claims that a list of (name, value) pairs gives, a later pair for a
/// name replacing an earlier one.
pub open spec fn claim_map(pairs: Seq<(String, i64)>) -> Map<Seq<char>, i64>
    decreases pairs.len(),
{
    if pairs.len() == 0 {
        Map::empty()
    } else {
        claim_map(pairs.drop_last()).insert(pairs.last().0@, pairs.last().1)
    }
}

/// Whether no two pairs name the same claim.
pub open spec fn claim_names_distinct(pairs: Seq<(String, i64)>) -> bool {
    forall|i: int, j: int| 0 <= i < j < pairs.len() ==> (#[trigger] pairs[i]).0@ != (#[trigger] pairs[j]).0@
}

/// The token that `jsonwebtoken::encode` makes, with the default header
/// (HS256), for a payload holding these integer claims, signed with `secret`.
pub uninterp spec fn jwt_hs256_token(claims: Map<Seq<char>, i64>, secret: Seq<u8>) -> Seq<char>;

/// The claims of `token`, where `jsonwebtoken::decode` with the default
/// validation, expiry left unchecked, accepts it under `secret`: its header
/// names HS256, its signature is the HMAC-SHA256 of its header and payload
/// under `secret`, its payload is a JSON object of integers, and it holds an
/// `exp` claim that is a non-negative number.
pub uninterp spec fn jwt_signed_claims(token: Seq<char>, secret: Seq<u8>) -> Option<Map<Seq<char>, i64>>;

/// `jsonwebtoken::encode(&Header::default(), &claims, &EncodingKey::from_secret(secret))`,
/// with the pairs collected into a `BTreeMap`, which serialises as a JSON
/// object.
///
/// The HS256 header matches a secret key, the serialisation of a map of
/// integers cannot fail and HMAC signing takes a key of any length, so the
/// call succeeds. Where no two pairs name the same claim (std leaves open
/// which of two equal keys `collect` keeps), the token is a function of the
/// claims and the secret, and where the claims also hold a non-negative
/// `exp`, decoding the token under the same secret gives back exactly these
/// claims: the signature is recomputed identically, the payload parses back
/// to the same map, and the required `exp` claim is present.
#[verifier::external_body]
fn jwt_encode(claims: &Vec<(String, i64)>, secret: &[u8]) -> (res: Result<String, JwtLibError>)
    ensures
        res is Ok,
        res matches Ok(t) ==> (claim_names_distinct(claims@)
            ==> t@ == jwt_hs256_token(claim_map(claims@), secret@)),
        res matches Ok(t) ==> (claim_names_distinct(claims@) && claim_map(claims@).contains_key("exp"@)
            && claim_map(claims@)["exp"@] >= 0 ==> jwt_signed_claims(t@, secret@) == Some(claim_map(claims@))),
{
    let payload: BTreeMap<&str, i64> = claims.iter().map(|(name, value)| (name.as_str(), *value)).collect();
    jsonwebtoken::encode(
        &jsonwebtoken::Header::default(),
        &payload,
        &jsonwebtoken::EncodingKey::from_secret(secret),
    )
}

/// `jsonwebtoken::decode::<BTreeMap<String, i64>>(token, &DecodingKey::from_secret(secret), &validation)`,
/// where `validation` is `Validation::default()` with `validate_exp` off, and
/// the map's pairs listed in key order.
///
/// With expiry unchecked (the library checks it against the clock itself),
/// `validate` reads no clock, so the outcome is a function of the token and
/// the secret: the claims are `jwt_signed_claims(token, secret)` where that is
/// `Some`, and the call fails where it is `None`. A token is split at its
/// last two `.` (header, payload, signature), so one with fewer than two is
/// refused.
#[verifier::external_body]
fn jwt_decode(token: &str, secret: &[u8]) -> (res: Result<Vec<(String, i64)>, JwtLibError>)
    ensures
        res matches Ok(pairs) ==> jwt_signed_claims(token@, secret@) == Some(claim_map(pairs@)),
        res is Err ==> jwt_signed_claims(token@, secret@) is None,
        res is Ok ==> count_char(token@, '.') >= 2,
{
    let mut validation = jsonwebtoken::Validation::default();
    validation.validate_exp = false;
    let key = jsonwebtoken::DecodingKey::from_secret(secret);
    match jsonwebtoken::decode::<BTreeMap<String, i64>>(token, &key, &validation) {
        Ok(data) => Ok(data.claims.into_iter().collect()),
        Err(e) => Err(e),
    }
}

/// How long after its expiry a token is still accepted, in seconds: the
/// default leeway of `jsonwebtoken::Validation`.
pub const TOKEN_LEEWAY_SECS: i64 = 60i64;

/// Whether a token that expires at `exp` is still accepted at time `now`.
pub open spec fn token_current(exp: int, now: int) -> bool {
    exp + TOKEN_LEEWAY_SECS >= now
}

/// The payload of a token that carries these claims.
pub open spec fn spec_claims_map(c: Claims) -> Map<Seq<char>, i64> {
    map!["iat"@ => c.iat, "exp"@ => c.exp, "user_id"@ => c.user_id as i64]
}

/// The claims that a token's payload carries: all three, with a user id that
/// fits an `i32`; `None` otherwise.
pub open spec fn spec_claims_from_map(m: Map<Seq<char>, i64>) -> Option<Claims> {
    if m.contains_key("iat"@) && m.contains_key("exp"@) && m.contains_key("user_id"@)
        && i32::MIN <= m["user_id"@] <= i32::MAX {
        Some(Claims { iat: m["iat"@], exp: m["exp"@], user_id: m["user_id"@] as i32 })
    } else {
        None
    }
}

/// Looking a claim up ignores the pairs after position `i` that name
/// another claim.
proof fn lemma_claim_map_prefix(pairs: Seq<(String, i64)>, i: int, key: Seq<char>)
    requires
        0 <= i <= pairs.len(),
        forall|j: int| i <= j < pairs.len() ==> (#[trigger] pairs[j]).0@ != key,
    ensures
        claim_map(pairs).contains_key(key) == claim_map(pairs.take(i)).contains_key(key),
        claim_map(pairs).contains_key(key) ==> claim_map(pairs)[key] == claim_map(pairs.take(i))[key],
    decreases pairs.len(),
{
    if i == pairs.len() {
        assert(pairs.take(i) =~= pairs);
    } else {
        let last = pairs.len() - 1;
        assert(pairs[last].0@ != key);
        lemma_claim_map_prefix(pairs.drop_last(), i, key);
        assert(pairs.drop_last().take(i) =~= pairs.take(i));
    }
}

/// The value of the claim named `key`, where the pairs hold one.
fn claim_value(pairs: &Vec<(String, i64)>, key: &String) -> (r: Option<i64>)
    ensures
        r == (if claim_map(pairs@).contains_key(key@) { Some(claim_map(pairs@)[key@]) } else { None }),
{
    let mut i = pairs.len();
    while i > 0
        invariant
            i <= pairs@.len(),
            forall|j: int| i <= j < pairs@.len() ==> (#[trigger] pairs@[j]).0@ != key@,
        decreases i,
    {
        i = i - 1;
        if pairs[i].0 == *key {
            proof {
                lemma_claim_map_prefix(pairs@, i + 1, key@);
                assert(pairs@.take(i + 1).drop_last() =~= pairs@.take(i as int));
            }
            return Some(pairs[i].1);
        }
    }
    proof {
        lemma_claim_map_prefix(pairs@, 0, key@);
        assert(pairs@.take(0) =~= Seq::<(String, i64)>::empty());
    }
    None
}

/// The claims that a token's payload carries (see `spec_claims_from_map`).
pub fn claims_from_pairs(pairs: &Vec<(String, i64)>) -> (c: Option<Claims>)
    ensures
        c == spec_claims_from_map(claim_map(pairs@)),
{
    let iat = claim_value(pairs, &String::from_str("iat"));
    let exp = claim_value(pairs, &String::from_str("exp"));
    let user_id = claim_value(pairs, &String::from_str("user_id"));
    match (iat, exp, user_id) {
        (Some(iat), Some(exp), Some(user_id)) => {
            if i32::MIN as i64 <= user_id && user_id <= i32::MAX as i64 {
                Some(Claims { iat, exp, user_id: user_id as i32 })
            } else {
                None
            }
        },
        _ => None,
    }
}

impl Claims {
    /// The payload pairs of a token carrying these claims.
    pub fn claim_pairs(&self) -> (pairs: Vec<(String, i64)>)
        ensures
            claim_map(pairs@) == spec_claims_map(*self),
            claim_names_distinct(pairs@),
    {
        let pairs = vec![
            (String::from_str("iat"), self.iat),
            (String::from_str("exp"), self.exp),
            (String::from_str("user_id"), self.user_id as i64),
        ];
        proof {
            reveal_with_fuel(claim_map, 4);
            assert(pairs@.drop_last().drop_last().drop_last() =~= Seq::<(String, i64)>::empty());
            assert(claim_map(pairs@) =~= spec_claims_map(*self));
            reveal_strlit("iat");
            reveal_strlit("exp");
            reveal_strlit("user_id");
            assert("iat"@.len() != "user_id"@.len());
            assert("exp"@.len() != "user_id"@.len());
            assert("iat"@[0] != "exp"@[0]);
        }
        pairs
    }
}

/// The user that a token's claims identify at time `now`: refused (as an
/// internal error, as every token failure is) where the claims are
/// incomplete or the token expired more than `TOKEN_LEEWAY_SECS` ago.
pub open spec fn spec_token_user(claims: Map<Seq<char>, i64>, now: int) -> Result<UserId, ServiceError> {
    match spec_claims_from_map(claims) {
        Some(c) => if token_current(c.exp as int, now) {
            Ok(UserId { id: c.user_id })
        } else {
            Err(ServiceError::InternalServerError)
        },
        None => Err(ServiceError::InternalServerError),
    }
}

/// The user that a decoded token's claims identify at time `now` (see
/// `spec_token_user`).
pub fn accept_token_claims(pairs: &Vec<(String, i64)>, now: u64) -> (res: Result<UserId, ServiceError>)
    ensures
        res == spec_token_user(claim_map(pairs@), now as int),
{
    match claims_from_pairs(pairs) {
        Some(claims) => {
            if claims.exp as i128 + TOKEN_LEEWAY_SECS as i128 >= now as i128 {
                Ok(UserId { id: claims.user_id })
            } else {
                Err(ServiceError::InternalServerError)
            }
        },
        None => Err(ServiceError::InternalServerError),
    }
}

/// The token issued to user `id` when the clock reads `now`, signed with
/// `secret`: the HS256 token whose payload is `spec_claims_map` of the claims
/// `spec_claims_issued(id, now)`.
pub open spec fn spec_issued_token(id: i32, now: int, secret: Seq<u8>) -> Seq<char> {
    jwt_hs256_token(spec_claims_map(spec_claims_issued(id, now)), secret)
}

impl UserId {
    /// The login token for this user issued when the clock reads `now`,
    /// signed with `secret`: `spec_issued_token(self.id, now, secret)`, which
    /// decodes under the same secret to the claims it was made from. A clock
    /// reading too late for the expiry to fit in an `i64` gives an internal
    /// error.
    pub fn token_at(&self, now: u64, secret: &[u8]) -> (res: Result<String, ServiceError>)
        ensures
            now <= Claims::latest_issue_time() ==> (res matches Ok(t)
                && t@ == spec_issued_token(self.id, now as int, secret@)
                && jwt_signed_claims(t@, secret@) == Some(spec_claims_map(spec_claims_issued(self.id, now as int)))),
            now > Claims::latest_issue_time() ==> res matches Err(ServiceError::InternalServerError),
    {
        let claims = match Claims::issued_at_checked(self.id, now) {
            Some(claims) => claims,
            None => return Err(ServiceError::InternalServerError),
        };
        let pairs = claims.claim_pairs();
        proof {
            reveal_strlit("exp");
            reveal_strlit("user_id");
            assert("exp"@.len() != "user_id"@.len());
            assert(spec_claims_map(claims).contains_key("exp"@));
            assert(spec_claims_map(claims)["exp"@] == claims.exp);
        }
        match jwt_encode(&pairs, secret) {
            Ok(token) => Ok(token),
            Err(_) => Err(ServiceError::InternalServerError),
        }
    }

    /// A login token for this user, issued now by the system clock and signed
    /// with `secret` (see `token_at`), for a secret of any length. A clock
    /// reading before the UNIX epoch counts as the epoch, and one past
    /// `Claims::latest_issue_time()` as that time, so a token is always
    /// issued.
    pub fn get_token(&self, secret: &[u8]) -> (res: Result<String, ServiceError>)
        ensures
            res is Ok,
            res is Err ==> res matches Err(ServiceError::InternalServerError),
            res matches Ok(t) ==> exists|now: u64|
                #![trigger spec_issued_token(self.id, now as int, secret@)]
                now <= Claims::latest_issue_time() && t@ == spec_issued_token(self.id, now as int, secret@)
                    && jwt_signed_claims(t@, secret@) == Some(spec_claims_map(spec_claims_issued(self.id, now as int))),
    {
        let latest: u64 = (i64::MAX - crate::serializers::TOKEN_LIFETIME_SECS) as u64;
        let now = match unix_now() {
            Some(now) => if now <= latest { now } else { latest },
            None => 0,
        };
        self.token_at(now, secret)
    }

    /// The user that `token` identifies when the clock reads `now`, checked
    /// with `secret`: its signature must hold under the secret, its payload
    /// must carry the three claims, and it must not have expired more than
    /// `TOKEN_LEEWAY_SECS` before `now`. Every refusal is an internal error.
    pub fn from_token_at(token: &str, secret: &[u8], now: u64) -> (res: Result<UserId, ServiceError>)
        ensures
            res == match jwt_signed_claims(token@, secret@) {
                None => Err(ServiceError::InternalServerError),
                Some(m) => spec_token_user(m, now as int),
            },
    {
        match jwt_decode(token, secret) {
            Ok(pairs) => accept_token_claims(&pairs, now),
            Err(_) => Err(ServiceError::InternalServerError),
        }
    }

    /// The user that `token` identifies now, by the system clock (see
    /// `from_token_at`); a clock reading before the UNIX epoch counts as the
    /// epoch.
    pub fn from_token(token: &str, secret: &[u8]) -> (res: Result<UserId, ServiceError>)
        ensures
            res is Err ==> res matches Err(ServiceError::InternalServerError),
            res matches Ok(u) ==> exists|now: u64| #![trigger spec_token_user(jwt_signed_claims(token@, secret@)->0, now as int)]
                jwt_signed_claims(token@, secret@) is Some
                    && spec_token_user(jwt_signed_claims(token@, secret@)->0, now as int) == Ok::<UserId, ServiceError>(u),
            jwt_signed_claims(token@, secret@) is None ==> res is Err,
            exists|now: u64| #![trigger spec_token_user(jwt_signed_claims(token@, secret@)->0, now as int)]
                res == match jwt_signed_claims(token@, secret@) {
                    None => Err(ServiceError::InternalServerError),
                    Some(m) => spec_token_user(m, now as int),
                },
    {
        let now = match unix_now() {
            Some(now) => now,
            None => 0,
        };
        UserId::from_token_at(token, secret, now)
    }
}

} // verus!
