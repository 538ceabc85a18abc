//! The authentication flow: login, refresh, logout, and resolving the user
//! behind an access token. Each step takes what the stores returned and says
//! what to return and what to write.

use vstd::prelude::*;
use crate::ident::{hyphenated, id_of_text, lemma_id_of_hyphenated, parse_id, uuid_text};
use crate::model::{User, UserProfile};
use crate::security::{
    access_decoding, access_payload, encode_refresh_token, encode_token, expiry_after,
    jwt_text, refresh_decoding, refresh_kind, refresh_payload, unexpired, verify_hash_password,
    verify_outcome, decode_refresh_token, Claims, ClaimsRefresh, ClaimsRefreshView, ClaimsView,
    TokenError,
};
use crate::session::{
    add_session, after_deletes, after_write, cache_get, get_session, remove_session,
    removal_keys, session_lookup, session_of_text, session_ttl, Cache,
    SessionError, SessionView, SessionWrite,
};
use crate::settings::Config;

verus! {

/// Why an authentication step failed.
#[derive(Debug, PartialEq, Eq, Structural)]
pub enum AuthError {
    /// Unknown user name or wrong password; which of the two is not told.
    InvalidCredentials,
    /// Missing, invalid or expired token, or no session or user behind it.
    Unauthorized,
    /// Signing failed, or a stored value could not be read.
    InternalError,
}

/// The two tokens handed out at login or refresh, with their expiry times
/// (Unix seconds).
pub struct IssuedTokens {
    pub token: String,
    pub refresh_token: String,
    pub exp: i64,
    pub exp_refresh_token: i64,
}

/// The access claims issued to a user at `now`.
pub open spec fn access_claims_for(id: u128, user_name: Seq<char>, config: Config, now: i64) -> ClaimsView {
    ClaimsView { id: hyphenated(id), user_name, exp: expiry_after(now, config.jwt_exp) }
}

/// The refresh claims issued to a user at `now`.
pub open spec fn refresh_claims_for(id: u128, user_name: Seq<char>, config: Config, now: i64) -> ClaimsRefreshView {
    ClaimsRefreshView {
        id: hyphenated(id),
        user_name,
        exp: expiry_after(now, config.jwt_refresh_exp),
        type_key: refresh_kind(),
    }
}

/// What holds of tokens and the session write issued to a user at `now`:
/// the tokens carry the user's claims and read back as them until they
/// expire, and the write stores, under the access token and for the access
/// lifetime, the user's id and the refresh token.
pub open spec fn issued_to(
    t: IssuedTokens,
    w: SessionWrite,
    id: u128,
    user_name: Seq<char>,
    config: Config,
    now: i64,
) -> bool {
    let ac = access_claims_for(id, user_name, config, now);
    let rc = refresh_claims_for(id, user_name, config, now);
    &&& t.token@ == jwt_text(access_payload(ac), config.jwt_secret@)
    &&& t.refresh_token@ == jwt_text(refresh_payload(rc), config.jwt_secret@)
    &&& t.exp == ac.exp
    &&& t.exp_refresh_token == rc.exp
    &&& forall|at: i64| #[trigger]
        access_decoding(t.token@, config.jwt_secret@, at) == if unexpired(ac.exp, at) {
            Ok::<ClaimsView, TokenError>(ac)
        } else {
            Err::<ClaimsView, TokenError>(TokenError::Expired)
        }
    &&& forall|at: i64| #[trigger]
        refresh_decoding(t.refresh_token@, config.jwt_secret@, at) == if unexpired(rc.exp, at) {
            Ok::<ClaimsRefreshView, TokenError>(rc)
        } else {
            Err::<ClaimsRefreshView, TokenError>(TokenError::Expired)
        }
    &&& w.key@ == t.token@
    &&& session_of_text(w.value@) == Ok::<SessionView, SessionError>(
        SessionView { user_id: hyphenated(id), refresh_token: t.refresh_token@ },
    )
    &&& w.ttl_seconds == session_ttl(config.jwt_exp)
}

/// Mints an access and a refresh token for a user and the cache write that
/// opens their session. Fails only when signing fails (an empty secret).
pub fn issue_tokens(id: u128, user_name: &String, config: &Config, now: i64) -> (r: Result<(IssuedTokens, SessionWrite), AuthError>)
    ensures
        config.jwt_secret@.len() == 0 ==> r == Err::<(IssuedTokens, SessionWrite), AuthError>(AuthError::InternalError),
        config.jwt_secret@.len() > 0 ==> r is Ok,
        r is Err ==> r == Err::<(IssuedTokens, SessionWrite), AuthError>(AuthError::InternalError),
        r is Ok ==> issued_to(r.unwrap().0, r.unwrap().1, id, user_name@, *config, now),
{
    let id_text = uuid_text(id);
    let claims = Claims::new(id_text.as_str(), user_name.as_str(), config, now);
    let token = match encode_token(&claims, config.jwt_secret.clone()) {
        Ok(t) => t,
        Err(_) => return Err(AuthError::InternalError),
    };
    let refresh_claims = ClaimsRefresh::new(id_text.as_str(), user_name.as_str(), config, now);
    let refresh_token = match encode_refresh_token(&refresh_claims, config.jwt_secret.clone()) {
        Ok(t) => t,
        Err(_) => return Err(AuthError::InternalError),
    };
    let write = add_session(id, config, token.clone(), refresh_token.clone());
    let tokens = IssuedTokens {
        token,
        refresh_token,
        exp: claims.exp,
        exp_refresh_token: refresh_claims.exp,
    };
    Ok((tokens, write))
}

/// A user that lookups may return: present and not soft-deleted.
pub open spec fn live_user(user: Option<User>) -> bool {
    user is Some && user.unwrap().deleted_date is None
}

/// Logs a user in. `user` and `profile` are what the lookup by user name
/// found. Unknown or deleted users and wrong passwords give
/// `InvalidCredentials`; a stored digest that cannot be read gives
/// `InternalError`; otherwise the tokens are issued.
pub fn login(user: Option<User>, profile: Option<UserProfile>, password: &str, config: &Config, now: i64) -> (r: Result<(IssuedTokens, SessionWrite), AuthError>)
    ensures
        !live_user(user) || profile is None ==> r == Err::<(IssuedTokens, SessionWrite), AuthError>(AuthError::InvalidCredentials),
        live_user(user) && profile is Some ==> match verify_outcome(password@, user.unwrap().password@) {
            Err(_) => r == Err::<(IssuedTokens, SessionWrite), AuthError>(AuthError::InternalError),
            Ok(false) => r == Err::<(IssuedTokens, SessionWrite), AuthError>(AuthError::InvalidCredentials),
            Ok(true) => {
                &&& config.jwt_secret@.len() == 0 ==> r == Err::<(IssuedTokens, SessionWrite), AuthError>(AuthError::InternalError)
                &&& config.jwt_secret@.len() > 0 ==> r is Ok
                &&& r is Err ==> r == Err::<(IssuedTokens, SessionWrite), AuthError>(AuthError::InternalError)
                &&& r is Ok ==> issued_to(r.unwrap().0, r.unwrap().1, user.unwrap().id, user.unwrap().user_name@, *config, now)
            },
        },
{
    let user = match user {
        Some(u) => u,
        None => return Err(AuthError::InvalidCredentials),
    };
    if user.deleted_date.is_some() || profile.is_none() {
        return Err(AuthError::InvalidCredentials);
    }
    match verify_hash_password(password, user.password.as_str()) {
        Err(_) => Err(AuthError::InternalError),
        Ok(false) => Err(AuthError::InvalidCredentials),
        Ok(true) => issue_tokens(user.id, &user.user_name, config, now),
    }
}

/// What [`refresh_subject`] returns for a refresh token at `now`.
pub open spec fn refresh_subject_outcome(token: Seq<char>, secret: Seq<char>, now: i64) -> Result<u128, AuthError> {
    match refresh_decoding(token, secret, now) {
        Err(_) => Err(AuthError::Unauthorized),
        Ok(c) => match id_of_text(c.id) {
            Some(v) => Ok(v),
            None => Err(AuthError::Unauthorized),
        },
    }
}

/// The first step of a refresh: checks the refresh token by signature and
/// expiry alone (no store is consulted) and gives the id of its subject.
/// A bad signature, a malformed or expired token, or an id that is not a
/// UUID gives `Unauthorized`.
pub fn refresh_subject(refresh_token: &str, config: &Config, now: i64) -> (r: Result<u128, AuthError>)
    ensures
        r == refresh_subject_outcome(refresh_token@, config.jwt_secret@, now),
{
    match decode_refresh_token(refresh_token, config.jwt_secret.clone(), now) {
        Err(_) => Err(AuthError::Unauthorized),
        Ok(claims) => match parse_id(claims.id.as_str()) {
            Some(v) => Ok(v),
            None => Err(AuthError::Unauthorized),
        },
    }
}

/// The second step of a refresh: `user` is what the lookup by the subject's
/// id found. A missing or deleted user gives `Unauthorized`; otherwise a new
/// pair of tokens is issued and a new session written (an earlier session is
/// left to expire).
pub fn refresh(user: Option<User>, config: &Config, now: i64) -> (r: Result<(IssuedTokens, SessionWrite), AuthError>)
    ensures
        !live_user(user) ==> r == Err::<(IssuedTokens, SessionWrite), AuthError>(AuthError::Unauthorized),
        live_user(user) ==> {
            &&& config.jwt_secret@.len() == 0 ==> r == Err::<(IssuedTokens, SessionWrite), AuthError>(AuthError::InternalError)
            &&& config.jwt_secret@.len() > 0 ==> r is Ok
            &&& r is Err ==> r == Err::<(IssuedTokens, SessionWrite), AuthError>(AuthError::InternalError)
            &&& r is Ok ==> issued_to(r.unwrap().0, r.unwrap().1, user.unwrap().id, user.unwrap().user_name@, *config, now)
        },
{
    match user {
        None => Err(AuthError::Unauthorized),
        Some(u) => if u.deleted_date.is_some() {
            Err(AuthError::Unauthorized)
        } else {
            issue_tokens(u.id, &u.user_name, config, now)
        },
    }
}

/// The text form of what the cache returned.
pub open spec fn raw_view(raw: Option<String>) -> Option<Seq<char>> {
    match raw {
        Some(t) => Some(t@),
        None => None,
    }
}

/// What [`resolve_session_user`] returns for the value read under a token.
pub open spec fn resolve_outcome(raw: Option<Seq<char>>) -> Result<Option<u128>, AuthError> {
    match session_lookup(raw) {
        Err(_) => Err(AuthError::InternalError),
        Ok(None) => Ok(None),
        Ok(Some(s)) => match id_of_text(s.user_id) {
            Some(v) => Ok(Some(v)),
            None => Err(AuthError::InternalError),
        },
    }
}

/// The first step of resolving an access token: from the value the cache
/// holds under the token, the id of the session's user. Nothing stored means
/// no session (not an error); a stored value that cannot be read is an
/// internal error. The caller then loads the user, soft-deleted ones
/// excluded.
pub fn resolve_session_user(raw: Option<String>) -> (r: Result<Option<u128>, AuthError>)
    ensures
        r == resolve_outcome(raw_view(raw)),
{
    match get_session(raw) {
        Err(_) => Err(AuthError::InternalError),
        Ok(None) => Ok(None),
        Ok(Some(s)) => match parse_id(s.user_id.as_str()) {
            Some(v) => Ok(Some(v)),
            None => Err(AuthError::InternalError),
        },
    }
}

/// What [`logout`] returns: the keys to delete, or why not.
pub open spec fn logout_outcome(raw: Option<Seq<char>>, user_found: bool, token: Seq<char>) -> Result<Seq<Seq<char>>, AuthError> {
    match session_lookup(raw) {
        Err(_) => Err(AuthError::InternalError),
        Ok(None) => Err(AuthError::Unauthorized),
        Ok(Some(s)) => if user_found {
            Ok(removal_keys(s, token))
        } else {
            Err(AuthError::Unauthorized)
        },
    }
}

/// Logs out the session of an access token. `raw` is what the cache holds
/// under the token and `user_found` whether the session's user still
/// exists. No session or no user gives `Unauthorized`; otherwise the keys
/// to delete.
pub fn logout(raw: Option<String>, user_found: bool, token: String) -> (r: Result<Vec<String>, AuthError>)
    ensures
        match logout_outcome(raw_view(raw), user_found, token@) {
            Ok(keys) => r is Ok && r.unwrap()@.map_values(|k: String| k@) == keys,
            Err(e) => r == Err::<Vec<String>, AuthError>(e),
        },
{
    match get_session(raw) {
        Err(_) => Err(AuthError::InternalError),
        Ok(None) => Err(AuthError::Unauthorized),
        Ok(Some(s)) => if user_found {
            match remove_session(Some(s), token) {
                Some(keys) => Ok(keys),
                None => Err(AuthError::Unauthorized),
            }
        } else {
            Err(AuthError::Unauthorized)
        },
    }
}


/// The session that tokens issued to a user open.
pub open spec fn issued_session(t: IssuedTokens, id: u128) -> SessionView {
    SessionView { user_id: hyphenated(id), refresh_token: t.refresh_token@ }
}

/// Once the session write of a login or refresh is applied, the access token
/// it issued finds, in the cache, a session of the same user and resolves to
/// that user's id; the entry lives exactly the access lifetime.
pub proof fn lemma_issued_token_resolves(
    cache: Cache,
    t: IssuedTokens,
    w: SessionWrite,
    id: u128,
    user_name: Seq<char>,
    config: Config,
    now: i64,
)
    requires
        issued_to(t, w, id, user_name, config, now),
    ensures
        session_lookup(cache_get(after_write(cache, w), t.token@)) == Ok::<Option<SessionView>, SessionError>(
            Some(issued_session(t, id)),
        ),
        resolve_outcome(cache_get(after_write(cache, w), t.token@)) == Ok::<Option<u128>, AuthError>(Some(id)),
        w.ttl_seconds == 60 * config.jwt_exp,
{
    assert(after_write(cache, w).contains_key(t.token@));
    assert(after_write(cache, w)[t.token@] == w.value@);
    lemma_id_of_hyphenated(id);
}

/// A refresh token issued to a user names that user until it expires, and
/// is refused with `Unauthorized` after; the tokens a refresh then issues to
/// the user resolve, once their session is written, to the same user.
pub proof fn lemma_refresh_issues_new_access(
    cache: Cache,
    t: IssuedTokens,
    w: SessionWrite,
    t2: IssuedTokens,
    w2: SessionWrite,
    id: u128,
    user_name: Seq<char>,
    config: Config,
    now: i64,
    later: i64,
    at: i64,
)
    requires
        issued_to(t, w, id, user_name, config, now),
        issued_to(t2, w2, id, user_name, config, later),
    ensures
        unexpired(t.exp_refresh_token, at) ==> refresh_subject_outcome(t.refresh_token@, config.jwt_secret@, at)
            == Ok::<u128, AuthError>(id),
        !unexpired(t.exp_refresh_token, at) ==> refresh_subject_outcome(t.refresh_token@, config.jwt_secret@, at)
            == Err::<u128, AuthError>(AuthError::Unauthorized),
        resolve_outcome(cache_get(after_write(cache, w2), t2.token@)) == Ok::<Option<u128>, AuthError>(Some(id)),
{
    lemma_id_of_hyphenated(id);
    assert(refresh_decoding(t.refresh_token@, config.jwt_secret@, at) == if unexpired(t.exp_refresh_token, at) {
        Ok::<ClaimsRefreshView, TokenError>(refresh_claims_for(id, user_name, config, now))
    } else {
        Err::<ClaimsRefreshView, TokenError>(TokenError::Expired)
    });
    lemma_issued_token_resolves(cache, t2, w2, id, user_name, config, later);
}

/// The first logout with a freshly issued access token succeeds and deletes
/// its entry; a second logout with the same token then finds no session and
/// is refused with `Unauthorized`, whatever the user lookup says.
pub proof fn lemma_logout_twice(
    cache: Cache,
    t: IssuedTokens,
    w: SessionWrite,
    id: u128,
    user_name: Seq<char>,
    config: Config,
    now: i64,
    user_found_again: bool,
)
    requires
        issued_to(t, w, id, user_name, config, now),
    ensures
        logout_outcome(cache_get(after_write(cache, w), t.token@), true, t.token@) == Ok::<Seq<Seq<char>>, AuthError>(
            removal_keys(issued_session(t, id), t.token@),
        ),
        logout_outcome(
            cache_get(
                after_deletes(after_write(cache, w), removal_keys(issued_session(t, id), t.token@)),
                t.token@,
            ),
            user_found_again,
            t.token@,
        ) == Err::<Seq<Seq<char>>, AuthError>(AuthError::Unauthorized),
{
    lemma_issued_token_resolves(cache, t, w, id, user_name, config, now);
    let keys = removal_keys(issued_session(t, id), t.token@);
    assert(keys[1] == t.token@);
    assert(keys.to_set().contains(t.token@));
    assert(!after_deletes(after_write(cache, w), keys).contains_key(t.token@));
}

} // verus!
