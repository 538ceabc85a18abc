use core_rust_qti::security::{
    decode_refresh_token, decode_token, encode_refresh_token, encode_token, expiry_time,
    hash_password, verify_hash_password, Claims, ClaimsRefresh, HashError, TokenError,
};
use core_rust_qti::settings::Config;

fn config() -> Config {
    Config {
        env: "file".to_string(),
        host: "127.0.0.1".to_string(),
        port: 8000,
        prefix: None,
        database_url: "postgres://localhost/db".to_string(),
        jwt_secret: "secret".to_string(),
        jwt_exp: 15,
        jwt_refresh_exp: 60,
        redis_url: "redis://localhost".to_string(),
    }
}

#[test]
fn test_hashing_password() {
    let password = "secretpassword";
    let hash = hash_password(&password);
    assert!(hash.is_ok());
    let hash = hash.unwrap();
    let verify = verify_hash_password(&password, &hash);
    assert!(verify.is_ok());
    assert!(verify.unwrap());
    let verify_false = verify_hash_password("wrongpassword", &hash);
    assert!(verify_false.is_ok());
    assert_eq!(verify_false.unwrap(), false);
}

#[test]
fn hash_is_self_describing_and_salted() {
    let a = hash_password("pw").unwrap();
    let b = hash_password("pw").unwrap();
    assert!(a.starts_with("$argon2id$v=19$"));
    assert_ne!(a, b);
    assert_ne!(a, "pw");
}

#[test]
fn malformed_digest_fails_closed() {
    assert_eq!(verify_hash_password("pw", "not a digest"), Err(HashError::MalformedDigest));
    assert_eq!(verify_hash_password("pw", ""), Err(HashError::MalformedDigest));
}

#[test]
fn claims_expire_after_lifetime() {
    let c = Claims::new("id-1", "alice", &config(), 1_000);
    assert_eq!(c.id, "id-1");
    assert_eq!(c.user_name, "alice");
    assert_eq!(c.exp, 1_000 + 15 * 60);
    let r = ClaimsRefresh::new("id-1", "alice", &config(), 1_000);
    assert_eq!(r.exp, 1_000 + 60 * 60);
    assert_eq!(r.type_key, "refresh");
}

#[test]
fn expiry_is_held_at_the_largest_time() {
    assert_eq!(expiry_time(i64::MAX - 10, 1), i64::MAX);
    assert_eq!(expiry_time(-100, 2), 20);
    assert_eq!(expiry_time(5, 0), 5);
}

#[test]
fn token_round_trip() {
    let c = Claims { id: "abc".to_string(), user_name: "alice".to_string(), exp: 2_000 };
    let t = encode_token(&c, "s3cret".to_string()).unwrap();
    assert_ne!(t, "abc");
    assert_eq!(t.split('.').count(), 3);
    let back = decode_token(&t, "s3cret".to_string(), 1_999).unwrap();
    assert_eq!(back.id, "abc");
    assert_eq!(back.user_name, "alice");
    assert_eq!(back.exp, 2_000);
    assert!(decode_token(&t, "s3cret".to_string(), 2_000).is_ok());
}

#[test]
fn token_rejected_after_expiry() {
    let c = Claims { id: "abc".to_string(), user_name: "alice".to_string(), exp: 2_000 };
    let t = encode_token(&c, "s3cret".to_string()).unwrap();
    assert!(matches!(decode_token(&t, "s3cret".to_string(), 2_001), Err(TokenError::Expired)));
}

#[test]
fn token_rejected_under_another_secret() {
    let c = Claims { id: "abc".to_string(), user_name: "alice".to_string(), exp: 2_000 };
    let t = encode_token(&c, "s3cret".to_string()).unwrap();
    assert!(matches!(decode_token(&t, "other".to_string(), 0), Err(TokenError::Malformed)));
}

#[test]
fn token_rejected_when_tampered_or_garbage() {
    let c = Claims { id: "abc".to_string(), user_name: "alice".to_string(), exp: 2_000 };
    let t = encode_token(&c, "s3cret".to_string()).unwrap();
    let mut bad = t.clone();
    bad.push('x');
    assert!(matches!(decode_token(&bad, "s3cret".to_string(), 0), Err(TokenError::Malformed)));
    assert!(matches!(decode_token("a.b.c", "s3cret".to_string(), 0), Err(TokenError::Malformed)));
    assert!(matches!(decode_token("", "s3cret".to_string(), 0), Err(TokenError::Malformed)));
}

#[test]
fn empty_secret_is_a_signing_error() {
    let c = Claims { id: "abc".to_string(), user_name: "alice".to_string(), exp: 2_000 };
    assert!(matches!(encode_token(&c, String::new()), Err(TokenError::SigningError)));
    let r = ClaimsRefresh {
        id: "abc".to_string(),
        user_name: "alice".to_string(),
        exp: 2_000,
        type_key: "refresh".to_string(),
    };
    assert!(matches!(encode_refresh_token(&r, String::new()), Err(TokenError::SigningError)));
}

#[test]
fn refresh_token_round_trip() {
    let r = ClaimsRefresh {
        id: "abc".to_string(),
        user_name: "alice".to_string(),
        exp: 5_000,
        type_key: "refresh".to_string(),
    };
    let t = encode_refresh_token(&r, "s3cret".to_string()).unwrap();
    let back = decode_refresh_token(&t, "s3cret".to_string(), 4_000).unwrap();
    assert_eq!(back.id, "abc");
    assert_eq!(back.type_key, "refresh");
    assert!(matches!(decode_refresh_token(&t, "s3cret".to_string(), 5_001), Err(TokenError::Expired)));
    assert!(matches!(decode_refresh_token(&t, "nope".to_string(), 0), Err(TokenError::Malformed)));
}

#[test]
fn access_reader_ignores_kind_marker_refresh_reader_requires_it() {
    let c = Claims { id: "abc".to_string(), user_name: "alice".to_string(), exp: 2_000 };
    let access = encode_token(&c, "k".to_string()).unwrap();
    assert!(matches!(decode_refresh_token(&access, "k".to_string(), 0), Err(TokenError::Malformed)));
    let r = ClaimsRefresh {
        id: "abc".to_string(),
        user_name: "alice".to_string(),
        exp: 2_000,
        type_key: "refresh".to_string(),
    };
    let refresh = encode_refresh_token(&r, "k".to_string()).unwrap();
    assert!(decode_token(&refresh, "k".to_string(), 0).is_ok());
}
