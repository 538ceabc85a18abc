//! Session entries: what the key-value cache holds for a live access token,
//! and the writes, reads and deletes that the session store makes.

use vstd::prelude::*;
use crate::fields::{
    Datum, FieldValue, field, fields_view, json_object, json_text, read_json_object,
    text_field, write_json_object,
};
use crate::ident::{hyphenated, uuid_text};
use crate::settings::Config;

verus! {

/// The value stored under an access token: whose session it is, and the
/// refresh token issued with it.
pub struct SessionData {
    pub user_id: String,
    pub refresh_token: String,
}

/// What a session entry holds.
pub struct SessionView {
    pub user_id: Seq<char>,
    pub refresh_token: Seq<char>,
}

impl View for SessionData {
    type V = SessionView;

    open spec fn view(&self) -> SessionView {
        SessionView { user_id: self.user_id@, refresh_token: self.refresh_token@ }
    }
}

/// Why a session entry could not be read.
#[derive(Debug, PartialEq, Eq, Structural)]
pub enum SessionError {
    /// The stored value is not a session object.
    Corrupt,
}

/// The JSON object that carries a session.
pub open spec fn session_payload(s: SessionView) -> Seq<(Seq<char>, Datum)> {
    seq![("user_id"@, Datum::Text(s.user_id)), ("refresh_token"@, Datum::Text(s.refresh_token))]
}

/// The session that a JSON object carries, if it names both fields as texts.
pub open spec fn session_of_payload(p: Seq<(Seq<char>, Datum)>) -> Option<SessionView> {
    match (field(p, "user_id"@), field(p, "refresh_token"@)) {
        (Some(Datum::Text(user_id)), Some(Datum::Text(refresh_token))) => Some(
            SessionView { user_id, refresh_token },
        ),
        _ => None,
    }
}

/// The session that a stored value holds.
pub open spec fn session_of_text(text: Seq<char>) -> Result<SessionView, SessionError> {
    match json_object(text) {
        Some(p) => match session_of_payload(p) {
            Some(s) => Ok(s),
            None => Err(SessionError::Corrupt),
        },
        None => Err(SessionError::Corrupt),
    }
}

proof fn lemma_session_payload_round_trip(s: SessionView)
    ensures
        session_of_payload(session_payload(s)) == Some(s),
{
    reveal_strlit("user_id");
    reveal_strlit("refresh_token");
    assert("user_id"@.len() == 7);
    assert("refresh_token"@.len() == 13);
    let p = session_payload(s);
    let head1 = p.drop_last();
    assert(head1 =~= seq![("user_id"@, Datum::Text(s.user_id))]);
    assert(head1.drop_last() =~= Seq::<(Seq<char>, Datum)>::empty());
    assert(field(head1, "user_id"@) == Some(Datum::Text(s.user_id)));
    assert(field(p, "user_id"@) == Some(Datum::Text(s.user_id)));
    assert(field(p, "refresh_token"@) == Some(Datum::Text(s.refresh_token)));
}

/// A cache write: store `value` under `key` for `ttl_seconds`, replacing
/// any entry there.
pub struct SessionWrite {
    pub key: String,
    pub value: String,
    pub ttl_seconds: u64,
}

/// The cache, as a map from key to stored value (entries past their time
/// to live are gone from it).
pub type Cache = Map<Seq<char>, Seq<char>>;

/// The cache after a write.
pub open spec fn after_write(cache: Cache, w: SessionWrite) -> Cache {
    cache.insert(w.key@, w.value@)
}

/// The cache after deleting some keys; a key that is absent is ignored.
pub open spec fn after_deletes(cache: Cache, keys: Seq<Seq<char>>) -> Cache {
    cache.remove_keys(keys.to_set())
}

/// What the cache holds under a key, as the read that the store makes
/// returns it.
pub open spec fn cache_get(cache: Cache, key: Seq<char>) -> Option<Seq<char>> {
    if cache.contains_key(key) {
        Some(cache[key])
    } else {
        None
    }
}

/// What [`get_session`] returns for the value read under a token.
pub open spec fn session_lookup(raw: Option<Seq<char>>) -> Result<Option<SessionView>, SessionError> {
    match raw {
        None => Ok(None),
        Some(text) => match session_of_text(text) {
            Ok(s) => Ok(Some(s)),
            Err(e) => Err(e),
        },
    }
}

/// The session lifetime in seconds for an access lifetime in minutes.
pub open spec fn session_ttl(minutes: u16) -> u64 {
    (60 * minutes) as u64
}

/// The cache write that opens a session for a user under an access token:
/// the entry names the user and the refresh token and lives as long as the
/// access token.
pub fn add_session(user_id: u128, config: &Config, token: String, refresh_token: String) -> (r: SessionWrite)
    ensures
        r.key@ == token@,
        r.value@ == json_text(session_payload(SessionView { user_id: hyphenated(user_id), refresh_token: refresh_token@ })),
        session_of_text(r.value@) == Ok::<SessionView, SessionError>(SessionView {
            user_id: hyphenated(user_id),
            refresh_token: refresh_token@,
        }),
        r.ttl_seconds == session_ttl(config.jwt_exp),
{
    let data = SessionData { user_id: uuid_text(user_id), refresh_token };
    let ghost s = data@;
    let mut p: Vec<(String, FieldValue)> = Vec::new();
    p.push((String::from_str("user_id"), FieldValue::Text(data.user_id)));
    p.push((String::from_str("refresh_token"), FieldValue::Text(data.refresh_token)));
    proof {
        assert(fields_view(p@) =~= session_payload(s));
    }
    let value = write_json_object(&p);
    proof {
        lemma_session_payload_round_trip(s);
        let back = json_object(value@).unwrap();
        assert(field(back, "user_id"@) == field(session_payload(s), "user_id"@));
        assert(field(back, "refresh_token"@) == field(session_payload(s), "refresh_token"@));
    }
    let ttl: u64 = 60 * (config.jwt_exp as u64);
    SessionWrite { key: token, value, ttl_seconds: ttl }
}

/// Reads the session from the value stored under an access token: none
/// when nothing is stored, an error when the value is not a session.
pub fn get_session(raw: Option<String>) -> (r: Result<Option<SessionData>, SessionError>)
    ensures
        match session_lookup(
            match raw {
                Some(t) => Some(t@),
                None => None,
            },
        ) {
            Ok(Some(s)) => r matches Ok(Some(d)) && d@ == s,
            Ok(None) => r matches Ok(None),
            Err(e) => r == Err::<Option<SessionData>, SessionError>(e),
        },
{
    match raw {
        None => Ok(None),
        Some(text) => match read_json_object(text.as_str()) {
            None => Err(SessionError::Corrupt),
            Some(p) => {
                let user_id = text_field(&p, &String::from_str("user_id"));
                let refresh_token = text_field(&p, &String::from_str("refresh_token"));
                match (user_id, refresh_token) {
                    (Some(user_id), Some(refresh_token)) => Ok(Some(SessionData { user_id, refresh_token })),
                    _ => Err(SessionError::Corrupt),
                }
            },
        },
    }
}

/// The keys that closing a session deletes: the access token's entry, and
/// a companion delete under the refresh token (no entry is ever stored
/// there, so it removes nothing).
pub open spec fn removal_keys(s: SessionView, token: Seq<char>) -> Seq<Seq<char>> {
    seq![s.refresh_token, token]
}

/// The deletes that close the session read under `token`; `None` when no
/// session was found, which means the token is already logged out.
pub fn remove_session(session: Option<SessionData>, token: String) -> (r: Option<Vec<String>>)
    ensures
        match session {
            None => r is None,
            Some(s) => r is Some && r.unwrap()@.map_values(|k: String| k@) == removal_keys(s@, token@),
        },
{
    match session {
        None => None,
        Some(s) => {
            let mut keys: Vec<String> = Vec::new();
            keys.push(s.refresh_token);
            keys.push(token);
            proof {
                assert(keys@.map_values(|k: String| k@) =~= removal_keys(s@, token@));
            }
            Some(keys)
        },
    }
}

} // verus!
