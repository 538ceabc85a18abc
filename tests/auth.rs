use std::collections::HashMap;

use core_rust_qti::auth::{
    login, logout, refresh, refresh_subject, resolve_session_user, AuthError, IssuedTokens,
};
use core_rust_qti::model::{User, UserProfile};
use core_rust_qti::security::{decode_refresh_token, decode_token, hash_password};
use core_rust_qti::session::{add_session, get_session, remove_session, SessionError, SessionWrite};
use core_rust_qti::settings::Config;

const ALICE: u128 = 0x0192_3f4e_5a6b_7c8d_9eaf_b0c1_d2e3_f405;

fn config() -> Config {
    Config {
        env: "file".to_string(),
        host: "127.0.0.1".to_string(),
        port: 8000,
        prefix: None,
        database_url: "postgres://localhost/db".to_string(),
        jwt_secret: "secret".to_string(),
        jwt_exp: 15,
        jwt_refresh_exp: 60,
        redis_url: "redis://localhost".to_string(),
    }
}

fn alice(password: &str) -> User {
    User {
        id: ALICE,
        user_name: "alice".to_string(),
        password: hash_password(password).unwrap(),
        is_active: Some(true),
        is_2faenabled: Some(false),
        created_by: None,
        updated_by: None,
        created_date: Some(0),
        updated_date: Some(0),
        deleted_date: None,
    }
}

fn profile() -> UserProfile {
    UserProfile {
        id: ALICE,
        user_id: ALICE,
        first_name: None,
        last_name: None,
        address: None,
        email: None,
    }
}

fn apply(cache: &mut HashMap<String, String>, w: &SessionWrite) {
    cache.insert(w.key.clone(), w.value.clone());
}

fn log_in(now: i64) -> (IssuedTokens, SessionWrite) {
    login(Some(alice("pw")), Some(profile()), "pw", &config(), now).unwrap()
}

#[test]
fn session_entry_round_trip() {
    let w = add_session(ALICE, &config(), "tok".to_string(), "ref".to_string());
    assert_eq!(w.key, "tok");
    assert_eq!(w.ttl_seconds, 15 * 60);
    assert!(w.value.contains("\"user_id\":\"01923f4e-5a6b-7c8d-9eaf-b0c1d2e3f405\""));
    let s = get_session(Some(w.value.clone())).unwrap().unwrap();
    assert_eq!(s.user_id, "01923f4e-5a6b-7c8d-9eaf-b0c1d2e3f405");
    assert_eq!(s.refresh_token, "ref");
}

#[test]
fn session_miss_and_corrupt_values() {
    assert!(matches!(get_session(None), Ok(None)));
    assert!(matches!(get_session(Some("garbage".to_string())), Err(SessionError::Corrupt)));
    assert!(matches!(get_session(Some("{\"user_id\":\"x\"}".to_string())), Err(SessionError::Corrupt)));
    assert!(matches!(
        get_session(Some("{\"user_id\":1,\"refresh_token\":\"r\"}".to_string())),
        Err(SessionError::Corrupt)
    ));
}

#[test]
fn remove_session_deletes_token_and_companion() {
    let w = add_session(ALICE, &config(), "tok".to_string(), "ref".to_string());
    let s = get_session(Some(w.value)).unwrap();
    let keys = remove_session(s, "tok".to_string()).unwrap();
    assert_eq!(keys, vec!["ref".to_string(), "tok".to_string()]);
    assert!(remove_session(None, "tok".to_string()).is_none());
}

#[test]
fn login_then_resolve() {
    let (t, w) = log_in(1_000);
    assert_eq!(w.key, t.token);
    assert_eq!(w.ttl_seconds, 15 * 60);
    assert_eq!(t.exp, 1_000 + 15 * 60);
    assert_eq!(t.exp_refresh_token, 1_000 + 60 * 60);
    let mut cache = HashMap::new();
    apply(&mut cache, &w);
    let id = resolve_session_user(cache.get(&t.token).cloned()).unwrap();
    assert_eq!(id, Some(ALICE));
    let claims = decode_token(&t.token, "secret".to_string(), 1_000).unwrap();
    assert_eq!(claims.id, "01923f4e-5a6b-7c8d-9eaf-b0c1d2e3f405");
    assert_eq!(claims.user_name, "alice");
}

#[test]
fn resolve_without_session_is_none() {
    assert_eq!(resolve_session_user(None), Ok(None));
    assert_eq!(resolve_session_user(Some("{}".to_string())), Err(AuthError::InternalError));
}

#[test]
fn login_rejects_bad_credentials() {
    let c = config();
    assert!(matches!(login(None, None, "pw", &c, 0), Err(AuthError::InvalidCredentials)));
    assert!(matches!(login(Some(alice("pw")), None, "pw", &c, 0), Err(AuthError::InvalidCredentials)));
    assert!(matches!(
        login(Some(alice("pw")), Some(profile()), "wrong", &c, 0),
        Err(AuthError::InvalidCredentials)
    ));
    let mut gone = alice("pw");
    gone.deleted_date = Some(5);
    assert!(matches!(login(Some(gone), Some(profile()), "pw", &c, 0), Err(AuthError::InvalidCredentials)));
    let mut broken = alice("pw");
    broken.password = "plain".to_string();
    assert!(matches!(login(Some(broken), Some(profile()), "pw", &c, 0), Err(AuthError::InternalError)));
}

#[test]
fn login_with_empty_secret_fails_internally() {
    let mut c = config();
    c.jwt_secret = String::new();
    assert!(matches!(login(Some(alice("pw")), Some(profile()), "pw", &c, 0), Err(AuthError::InternalError)));
}

#[test]
fn logout_twice() {
    let (t, w) = log_in(1_000);
    let mut cache = HashMap::new();
    apply(&mut cache, &w);
    let keys = logout(cache.get(&t.token).cloned(), true, t.token.clone()).unwrap();
    assert_eq!(keys, vec![t.refresh_token.clone(), t.token.clone()]);
    for k in &keys {
        cache.remove(k);
    }
    assert_eq!(logout(cache.get(&t.token).cloned(), true, t.token.clone()), Err(AuthError::Unauthorized));
}

#[test]
fn logout_without_user_is_unauthorized() {
    let (t, w) = log_in(1_000);
    assert_eq!(logout(Some(w.value), false, t.token), Err(AuthError::Unauthorized));
    assert_eq!(logout(Some("junk".to_string()), true, "x".to_string()), Err(AuthError::InternalError));
}

#[test]
fn refresh_issues_new_access() {
    let (t, _) = log_in(1_000);
    let c = config();
    let id = refresh_subject(&t.refresh_token, &c, 2_000).unwrap();
    assert_eq!(id, ALICE);
    let (t2, w2) = refresh(Some(alice("pw")), &c, 2_000).unwrap();
    assert_eq!(w2.key, t2.token);
    let mut cache = HashMap::new();
    apply(&mut cache, &w2);
    assert_eq!(resolve_session_user(cache.get(&t2.token).cloned()), Ok(Some(ALICE)));
    let rc = decode_refresh_token(&t2.refresh_token, "secret".to_string(), 2_000).unwrap();
    assert_eq!(rc.exp, 2_000 + 60 * 60);
}

#[test]
fn refresh_rejects_expired_or_forged_tokens() {
    let (t, _) = log_in(1_000);
    let c = config();
    assert_eq!(refresh_subject(&t.refresh_token, &c, 1_000 + 3_601), Err(AuthError::Unauthorized));
    let mut other = config();
    other.jwt_secret = "another".to_string();
    assert_eq!(refresh_subject(&t.refresh_token, &other, 1_000), Err(AuthError::Unauthorized));
    assert_eq!(refresh_subject("x.y.z", &c, 1_000), Err(AuthError::Unauthorized));
    assert_eq!(refresh_subject(&t.token, &c, 1_000), Err(AuthError::Unauthorized));
    assert!(matches!(refresh(None, &c, 1_000), Err(AuthError::Unauthorized)));
}
