use std::collections::BTreeMap;

use jsonwebtoken::{decode, encode, DecodingKey, EncodingKey, Header, Validation};
use mondrian::errors::ServiceError;
use mondrian::serializers::{Claims, UserId, TOKEN_LIFETIME_SECS};
use mondrian::tokens::{accept_token_claims, claims_from_pairs, TOKEN_LEEWAY_SECS};

const SECRET: &[u8] = b"a test secret for tokens";

fn token_for(iat: i64, exp: i64, user_id: i64) -> String {
    let mut claims = BTreeMap::new();
    claims.insert("iat".to_owned(), iat);
    claims.insert("exp".to_owned(), exp);
    claims.insert("user_id".to_owned(), user_id);
    encode(&Header::default(), &claims, &EncodingKey::from_secret(SECRET)).unwrap()
}

fn now() -> i64 {
    chrono::Utc::now().timestamp()
}

#[test]
fn issued_token_identifies_its_user() {
    let token = UserId { id: 17 }.get_token(SECRET).unwrap();
    assert_eq!(UserId::from_token(&token, SECRET).unwrap(), UserId { id: 17 });
}

#[test]
fn issued_token_carries_the_claims() {
    let before = now();
    let token = UserId { id: 5 }.get_token(SECRET).unwrap();
    let after = now();
    let data = decode::<BTreeMap<String, i64>>(&token, &DecodingKey::from_secret(SECRET), &Validation::default())
        .unwrap();
    let iat = data.claims["iat"];
    assert!(before <= iat && iat <= after);
    assert_eq!(data.claims["exp"], iat + TOKEN_LIFETIME_SECS);
    assert_eq!(data.claims["user_id"], 5);
    assert_eq!(data.claims.len(), 3);
}

#[test]
fn token_under_another_secret_is_refused() {
    let token = UserId { id: 1 }.get_token(SECRET).unwrap();
    assert!(matches!(UserId::from_token(&token, b"another secret"), Err(ServiceError::InternalServerError)));
}

#[test]
fn malformed_token_is_refused() {
    assert!(matches!(UserId::from_token("not.a.token", SECRET), Err(ServiceError::InternalServerError)));
    assert!(matches!(UserId::from_token("", SECRET), Err(ServiceError::InternalServerError)));
    let mut token = UserId { id: 1 }.get_token(SECRET).unwrap();
    token.push('x');
    assert!(matches!(UserId::from_token(&token, SECRET), Err(ServiceError::InternalServerError)));
}

#[test]
fn expired_token_is_refused() {
    let t = now();
    let stale = token_for(t - 100_000, t - 1_000, 3);
    assert!(matches!(UserId::from_token(&stale, SECRET), Err(ServiceError::InternalServerError)));
    let within_leeway = token_for(t - 100_000, t - 10, 3);
    assert_eq!(UserId::from_token(&within_leeway, SECRET).unwrap(), UserId { id: 3 });
}

#[test]
fn token_missing_a_claim_is_refused() {
    let t = now();
    let mut claims = BTreeMap::new();
    claims.insert("exp".to_owned(), t + 1_000);
    claims.insert("user_id".to_owned(), 3i64);
    let token = encode(&Header::default(), &claims, &EncodingKey::from_secret(SECRET)).unwrap();
    assert!(matches!(UserId::from_token(&token, SECRET), Err(ServiceError::InternalServerError)));
    let too_big = token_for(t, t + 1_000, i64::from(i32::MAX) + 1);
    assert!(matches!(UserId::from_token(&too_big, SECRET), Err(ServiceError::InternalServerError)));
}

#[test]
fn claim_pairs_read_back() {
    let c = Claims::issued_at(9, 1_000);
    let pairs = c.claim_pairs();
    assert_eq!(claims_from_pairs(&pairs), Some(c));
    let reversed: Vec<(String, i64)> = pairs.into_iter().rev().collect();
    assert_eq!(claims_from_pairs(&reversed), Some(c));
    let later_wins = vec![("user_id".to_owned(), 1), ("iat".to_owned(), 2), ("exp".to_owned(), 3), ("user_id".to_owned(), 4)];
    assert_eq!(claims_from_pairs(&later_wins), Some(Claims { iat: 2, exp: 3, user_id: 4 }));
}

#[test]
fn expiry_boundary() {
    let pairs = Claims::issued_at(7, 1_000).claim_pairs();
    let exp = 1_000 + TOKEN_LIFETIME_SECS;
    let last = (exp + TOKEN_LEEWAY_SECS) as u64;
    assert_eq!(accept_token_claims(&pairs, last).unwrap(), UserId { id: 7 });
    assert!(matches!(accept_token_claims(&pairs, last + 1), Err(ServiceError::InternalServerError)));
    assert_eq!(accept_token_claims(&pairs, 0).unwrap(), UserId { id: 7 });
}

#[test]
fn token_at_is_exact() {
    let token = UserId { id: 8 }.token_at(1_000, SECRET).unwrap();
    assert_eq!(token, token_for(1_000, 1_000 + TOKEN_LIFETIME_SECS, 8));
    assert_eq!(UserId { id: 8 }.token_at(1_000, SECRET).unwrap(), token);
    let late = (i64::MAX - TOKEN_LIFETIME_SECS) as u64;
    assert!(UserId { id: 8 }.token_at(late, SECRET).is_ok());
    assert!(matches!(UserId { id: 8 }.token_at(late + 1, SECRET), Err(ServiceError::InternalServerError)));
}

#[test]
fn from_token_at_checks_expiry_against_the_given_time() {
    let token = UserId { id: 8 }.token_at(1_000, SECRET).unwrap();
    let exp = 1_000 + TOKEN_LIFETIME_SECS;
    assert_eq!(UserId::from_token_at(&token, SECRET, 1_000).unwrap(), UserId { id: 8 });
    assert_eq!(UserId::from_token_at(&token, SECRET, (exp + TOKEN_LEEWAY_SECS) as u64).unwrap(), UserId { id: 8 });
    assert!(matches!(
        UserId::from_token_at(&token, SECRET, (exp + TOKEN_LEEWAY_SECS + 1) as u64),
        Err(ServiceError::InternalServerError)
    ));
    assert!(matches!(UserId::from_token_at(&token, b"wrong", 1_000), Err(ServiceError::InternalServerError)));
    assert!(matches!(UserId::from_token_at("no dots", SECRET, 1_000), Err(ServiceError::InternalServerError)));
}

#[test]
fn issued_at_checked_bounds() {
    assert_eq!(Claims::issued_at_checked(3, 50), Some(Claims { iat: 50, exp: 50 + TOKEN_LIFETIME_SECS, user_id: 3 }));
    let late = (i64::MAX - TOKEN_LIFETIME_SECS) as u64;
    assert!(Claims::issued_at_checked(3, late).is_some());
    assert_eq!(Claims::issued_at_checked(3, late + 1), None);
}
