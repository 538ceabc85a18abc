//! Password hashing and the two signed token kinds.

use vstd::prelude::*;
use crate::fields::{
    Datum, FieldValue, field, fields_view, integer_field, same_fields, text_field,
};
use crate::settings::Config;

verus! {

// ---------------------------------------------------------------- hashing

/// Why a password could not be hashed or checked.
#[derive(Debug, PartialEq, Eq, Structural)]
pub enum HashError {
    /// The hasher failed.
    HashFailed,
    /// The stored digest is not a PHC string that Argon2 can read.
    MalformedDigest,
}

/// Whether Argon2 accepts `password` for the PHC string `digest`; `None`
/// when the string cannot be read.
pub uninterp spec fn argon2_check(password: Seq<char>, digest: Seq<char>) -> Option<bool>;

/// Relies on `argon2::PasswordHash::new`, which reads a PHC string, and
/// `Argon2::verify_password`, which hashes `password` with the parameters and
/// salt the string names and compares.
#[verifier::external_body]
fn argon2_verify(password: &str, digest: &str) -> (r: Option<bool>)
    ensures
        r == argon2_check(password@, digest@),
{
    let parsed = argon2::PasswordHash::new(digest).ok()?;
    let argon = argon2::Argon2::default();
    Some(argon2::PasswordVerifier::verify_password(&argon, password.as_bytes(), &parsed).is_ok())
}

/// The longest password, in bytes, that Argon2 hashes.
pub const MAX_PASSWORD_BYTES: u64 = 0xFFFF_FFFF;

/// How a digest of Argon2id, version 19, begins.
pub open spec fn argon2id_prefix() -> Seq<char> {
    "$argon2id$v=19$"@
}

/// Relies on `argon2::PasswordHasher::hash_password` with Argon2's default
/// parameters (Argon2id, version 19) and a fresh salt from `OsRng`: it fails
/// only for a password over `MAX_PASSWORD_BYTES` bytes, and the PHC string it
/// writes starts `$argon2id$v=19$` and names its parameters and salt, so
/// `argon2_verify` accepts the same password for it.
#[verifier::external_body]
fn argon2_hash(password: &str) -> (r: Option<String>)
    ensures
        password_fits(password@) ==> r is Some,
        r is Some ==> argon2_id_prefix_of(r.unwrap()@),
        r is Some ==> argon2_check(password@, r.unwrap()@) == Some(true),
{
    let salt = argon2::password_hash::SaltString::generate(
        &mut argon2::password_hash::rand_core::OsRng,
    );
    let argon = argon2::Argon2::default();
    let hashed = argon2::PasswordHasher::hash_password(&argon, password.as_bytes(), &salt);
    hashed.ok().map(|h| h.to_string())
}

/// Whether a password is short enough for Argon2: at most
/// `MAX_PASSWORD_BYTES` bytes of UTF-8.
pub open spec fn password_fits(password: Seq<char>) -> bool {
    vstd::utf8::encode_utf8(password).len() <= MAX_PASSWORD_BYTES
}

/// Whether a digest begins as one of Argon2id, version 19.
pub open spec fn argon2_id_prefix_of(digest: Seq<char>) -> bool {
    argon2id_prefix().is_prefix_of(digest)
}

/// What [`verify_hash_password`] returns for a password and a digest.
pub open spec fn verify_outcome(password: Seq<char>, digest: Seq<char>) -> Result<bool, HashError> {
    match argon2_check(password, digest) {
        Some(ok) => Ok(ok),
        None => Err(HashError::MalformedDigest),
    }
}

/// Hashes a password into a self-describing digest (algorithm, parameters,
/// salt and hash in one string) under a fresh random salt. Checking the same
/// password against the digest succeeds. Fails only for a password over
/// `MAX_PASSWORD_BYTES` bytes.
pub fn hash_password(password: &str) -> (r: Result<String, HashError>)
    ensures
        password_fits(password@) ==> r is Ok,
        r is Ok ==> argon2_id_prefix_of(r.unwrap()@),
        r is Ok ==> verify_outcome(password@, r.unwrap()@) == Ok::<bool, HashError>(true),
        r is Err ==> r == Err::<String, HashError>(HashError::HashFailed),
{
    match argon2_hash(password) {
        Some(digest) => Ok(digest),
        None => Err(HashError::HashFailed),
    }
}

/// Checks a password against a digest written by [`hash_password`]; a digest
/// that cannot be read gives an error, never a panic.
pub fn verify_hash_password(password: &str, password_hash: &str) -> (r: Result<bool, HashError>)
    ensures
        r == verify_outcome(password@, password_hash@),
{
    match argon2_verify(password, password_hash) {
        Some(ok) => Ok(ok),
        None => Err(HashError::MalformedDigest),
    }
}


// ---------------------------------------------------------------- tokens

/// Why a token could not be written or read.
#[derive(Debug, PartialEq, Eq, Structural)]
pub enum TokenError {
    /// The secret is empty, or signing failed.
    SigningError,
    /// The signature does not match, or the token or its claims are not
    /// well formed.
    Malformed,
    /// The claims have expired.
    Expired,
}

/// The JWT that `jsonwebtoken::encode` writes with HS256 for a payload.
pub uninterp spec fn jwt_text(payload: Seq<(Seq<char>, Datum)>, secret: Seq<char>) -> Seq<char>;

/// The payload of a token whose HS256 signature matches `secret`, as
/// `jsonwebtoken::decode` reads it; `None` when the signature does not match
/// or the token is not well formed.
pub uninterp spec fn jwt_payload(token: Seq<char>, secret: Seq<char>) -> Option<Seq<(Seq<char>, Datum)>>;

/// Relies on `jsonwebtoken::encode` with the default header (HS256) and an
/// HMAC key made from the secret. It fails only on a key of another family
/// or a payload that cannot be serialised, neither of which can happen here.
/// Its output is what `jsonwebtoken::decode` accepts under the same secret,
/// with the same payload.
#[verifier::external_body]
fn jwt_sign(payload: &Vec<(String, FieldValue)>, secret: &str) -> (r: Option<String>)
    ensures
        r is Some,
        r is Some ==> r.unwrap()@ == jwt_text(fields_view(payload@), secret@),
        r is Some ==> jwt_payload(r.unwrap()@, secret@) is Some,
        r is Some ==> same_fields(jwt_payload(r.unwrap()@, secret@).unwrap(), fields_view(payload@)),
{
    let map: serde_json::Map<String, serde_json::Value> = payload.iter().map(|(k, v)| (k.clone(), match v {
        FieldValue::Text(s) => serde_json::Value::from(s.clone()),
        FieldValue::Integer(n) => serde_json::Value::from(*n),
        FieldValue::Other => serde_json::Value::Null,
    })).collect();
    let key = jsonwebtoken::EncodingKey::from_secret(secret.as_bytes());
    jsonwebtoken::encode(&jsonwebtoken::Header::default(), &map, &key).ok()
}

/// Relies on `jsonwebtoken::decode` with HS256 and an HMAC key made from the
/// secret, the signature checked and no claim validated (expiry is the
/// caller's to check): the payload as a JSON object.
#[verifier::external_body]
fn jwt_open(token: &str, secret: &str) -> (r: Option<Vec<(String, FieldValue)>>)
    ensures
        match r {
            Some(fs) => jwt_payload(token@, secret@) == Some(fields_view(fs@)),
            None => jwt_payload(token@, secret@) is None,
        },
{
    let mut rules = jsonwebtoken::Validation::new(jsonwebtoken::Algorithm::HS256);
    rules.validate_exp = false;
    rules.validate_aud = false;
    rules.required_spec_claims.clear();
    let key = jsonwebtoken::DecodingKey::from_secret(secret.as_bytes());
    let data = jsonwebtoken::decode::<serde_json::Map<String, serde_json::Value>>(token, &key, &rules).ok()?;
    Some(data.claims.into_iter().map(|(k, v)| (k, match v {
        serde_json::Value::String(t) => FieldValue::Text(t),
        other => other.as_i64().map_or(FieldValue::Other, FieldValue::Integer),
    })).collect())
}

/// An expiry `minutes` after `now` (Unix seconds), held at `i64::MAX`.
pub open spec fn expiry_after(now: i64, minutes: u16) -> i64 {
    if now + 60 * minutes > i64::MAX {
        i64::MAX
    } else {
        (now + 60 * minutes) as i64
    }
}

/// An expiry `minutes` after `now` (Unix seconds), held at `i64::MAX`.
pub fn expiry_time(now: i64, minutes: u16) -> (r: i64)
    ensures
        r == expiry_after(now, minutes),
{
    let span: i64 = 60 * (minutes as i64);
    if now > i64::MAX - span {
        i64::MAX
    } else {
        now + span
    }
}

/// Whether claims that expire at `exp` still hold at `now`.
pub open spec fn unexpired(exp: i64, now: i64) -> bool {
    now <= exp
}

/// What the claims of an access token hold.
pub struct ClaimsView {
    pub id: Seq<char>,
    pub user_name: Seq<char>,
    pub exp: i64,
}

/// The claims of an access token: the subject's id and name and when the
/// token expires (Unix seconds).
pub struct Claims {
    pub id: String,
    pub user_name: String,
    pub exp: i64,
}

impl View for Claims {
    type V = ClaimsView;

    open spec fn view(&self) -> ClaimsView {
        ClaimsView { id: self.id@, user_name: self.user_name@, exp: self.exp }
    }
}

/// The payload that carries access claims.
pub open spec fn access_payload(c: ClaimsView) -> Seq<(Seq<char>, Datum)> {
    seq![
        ("id"@, Datum::Text(c.id)),
        ("user_name"@, Datum::Text(c.user_name)),
        ("exp"@, Datum::Integer(c.exp)),
    ]
}

/// The access claims that a payload carries, if it names all three.
pub open spec fn access_claims_of(p: Seq<(Seq<char>, Datum)>) -> Option<ClaimsView> {
    match (field(p, "id"@), field(p, "user_name"@), field(p, "exp"@)) {
        (Some(Datum::Text(id)), Some(Datum::Text(user_name)), Some(Datum::Integer(exp))) => Some(
            ClaimsView { id, user_name, exp },
        ),
        _ => None,
    }
}

/// What [`decode_token`] returns for a token read under `secret` at `now`.
pub open spec fn access_decoding(token: Seq<char>, secret: Seq<char>, now: i64) -> Result<ClaimsView, TokenError> {
    match jwt_payload(token, secret) {
        None => Err(TokenError::Malformed),
        Some(p) => match access_claims_of(p) {
            None => Err(TokenError::Malformed),
            Some(c) => if unexpired(c.exp, now) {
                Ok(c)
            } else {
                Err(TokenError::Expired)
            },
        },
    }
}

proof fn lemma_names_distinct()
    ensures
        "id"@ != "user_name"@,
        "id"@ != "exp"@,
        "user_name"@ != "exp"@,
        "type_key"@ != "id"@,
        "type_key"@ != "user_name"@,
        "type_key"@ != "exp"@,
{
    reveal_strlit("id");
    reveal_strlit("user_name");
    reveal_strlit("exp");
    reveal_strlit("type_key");
    assert("id"@.len() == 2);
    assert("exp"@.len() == 3);
    assert("type_key"@.len() == 8);
    assert("user_name"@.len() == 9);
}

/// Reading back the payload of access claims gives the same claims.
pub proof fn lemma_access_payload_round_trip(c: ClaimsView)
    ensures
        access_claims_of(access_payload(c)) == Some(c),
{
    lemma_names_distinct();
    let p = access_payload(c);
    let head2 = p.drop_last();
    let head1 = head2.drop_last();
    assert(head2 =~= seq![("id"@, Datum::Text(c.id)), ("user_name"@, Datum::Text(c.user_name))]);
    assert(head1 =~= seq![("id"@, Datum::Text(c.id))]);
    assert(head1.drop_last() =~= Seq::<(Seq<char>, Datum)>::empty());
    assert(field(head1, "id"@) == Some(Datum::Text(c.id)));
    assert(field(head2, "id"@) == Some(Datum::Text(c.id)));
    assert(field(head2, "user_name"@) == Some(Datum::Text(c.user_name)));
    assert(field(p, "exp"@) == Some(Datum::Integer(c.exp)));
    assert(field(p, "user_name"@) == Some(Datum::Text(c.user_name)));
    assert(field(p, "id"@) == Some(Datum::Text(c.id)));
}

impl Claims {
    /// Claims for a subject, expiring `config.jwt_exp` minutes after `now`.
    pub fn new(user_id: &str, user_name: &str, config: &Config, now: i64) -> (r: Claims)
        ensures
            r@ == (ClaimsView {
                id: user_id@,
                user_name: user_name@,
                exp: expiry_after(now, config.jwt_exp),
            }),
    {
        Claims {
            id: String::from_str(user_id),
            user_name: String::from_str(user_name),
            exp: expiry_time(now, config.jwt_exp),
        }
    }

    /// The payload that carries these claims.
    pub fn to_payload(&self) -> (r: Vec<(String, FieldValue)>)
        ensures
            fields_view(r@) == access_payload(self@),
    {
        let mut p: Vec<(String, FieldValue)> = Vec::new();
        p.push((String::from_str("id"), FieldValue::Text(self.id.clone())));
        p.push((String::from_str("user_name"), FieldValue::Text(self.user_name.clone())));
        p.push((String::from_str("exp"), FieldValue::Integer(self.exp)));
        proof {
            assert(fields_view(p@) =~= access_payload(self@));
        }
        p
    }

    /// The access claims that a payload carries, if it names all three.
    pub fn from_payload(p: &Vec<(String, FieldValue)>) -> (r: Option<Claims>)
        ensures
            match access_claims_of(fields_view(p@)) {
                Some(c) => r is Some && r.unwrap()@ == c,
                None => r is None,
            },
    {
        let id = text_field(p, &String::from_str("id"));
        let user_name = text_field(p, &String::from_str("user_name"));
        let exp = integer_field(p, &String::from_str("exp"));
        match (id, user_name, exp) {
            (Some(id), Some(user_name), Some(exp)) => Some(Claims { id, user_name, exp }),
            _ => None,
        }
    }
}

/// Signs access claims with the shared secret. An empty secret is refused.
pub fn encode_token(claims: &Claims, jwt_secret: String) -> (r: Result<String, TokenError>)
    ensures
        jwt_secret@.len() == 0 ==> r == Err::<String, TokenError>(TokenError::SigningError),
        jwt_secret@.len() > 0 ==> r is Ok,
        r is Ok ==> r.unwrap()@ == jwt_text(access_payload(claims@), jwt_secret@),
        r is Ok ==> forall|now: i64| #[trigger]
            access_decoding(r.unwrap()@, jwt_secret@, now) == if unexpired(claims.exp, now) {
                Ok::<ClaimsView, TokenError>(claims@)
            } else {
                Err::<ClaimsView, TokenError>(TokenError::Expired)
            },
        r is Err ==> r == Err::<String, TokenError>(TokenError::SigningError),
{
    if jwt_secret.as_str().is_empty() {
        return Err(TokenError::SigningError);
    }
    let payload = claims.to_payload();
    match jwt_sign(&payload, jwt_secret.as_str()) {
        Some(token) => {
            proof {
                let back = jwt_payload(token@, jwt_secret@).unwrap();
                let p = access_payload(claims@);
                lemma_access_payload_round_trip(claims@);
                assert(field(back, "id"@) == field(p, "id"@));
                assert(field(back, "user_name"@) == field(p, "user_name"@));
                assert(field(back, "exp"@) == field(p, "exp"@));
            }
            Ok(token)
        },
        None => Err(TokenError::SigningError),
    }
}

/// Checks a token's signature with the shared secret and reads its access
/// claims; fails on a bad signature, a malformed token, or claims that
/// expired before `now`.
pub fn decode_token(token: &str, jwt_secret: String, now: i64) -> (r: Result<Claims, TokenError>)
    ensures
        match access_decoding(token@, jwt_secret@, now) {
            Ok(c) => r is Ok && r.unwrap()@ == c,
            Err(e) => r == Err::<Claims, TokenError>(e),
        },
{
    match jwt_open(token, jwt_secret.as_str()) {
        None => Err(TokenError::Malformed),
        Some(payload) => match Claims::from_payload(&payload) {
            None => Err(TokenError::Malformed),
            Some(c) => if now <= c.exp {
                Ok(c)
            } else {
                Err(TokenError::Expired)
            },
        },
    }
}


/// What the claims of a refresh token hold.
pub struct ClaimsRefreshView {
    pub id: Seq<char>,
    pub user_name: Seq<char>,
    pub exp: i64,
    pub type_key: Seq<char>,
}

/// The claims of a refresh token: those of an access token and a kind
/// marker, `refresh`, that tells the two kinds apart.
pub struct ClaimsRefresh {
    pub id: String,
    pub user_name: String,
    pub exp: i64,
    pub type_key: String,
}

impl View for ClaimsRefresh {
    type V = ClaimsRefreshView;

    open spec fn view(&self) -> ClaimsRefreshView {
        ClaimsRefreshView {
            id: self.id@,
            user_name: self.user_name@,
            exp: self.exp,
            type_key: self.type_key@,
        }
    }
}

/// The payload that carries refresh claims.
pub open spec fn refresh_payload(c: ClaimsRefreshView) -> Seq<(Seq<char>, Datum)> {
    seq![
        ("id"@, Datum::Text(c.id)),
        ("user_name"@, Datum::Text(c.user_name)),
        ("exp"@, Datum::Integer(c.exp)),
        ("type_key"@, Datum::Text(c.type_key)),
    ]
}

/// The refresh claims that a payload carries, if it names all four. The
/// kind marker must be a text; which text is not checked.
pub open spec fn refresh_claims_of(p: Seq<(Seq<char>, Datum)>) -> Option<ClaimsRefreshView> {
    match (field(p, "id"@), field(p, "user_name"@), field(p, "exp"@), field(p, "type_key"@)) {
        (
            Some(Datum::Text(id)),
            Some(Datum::Text(user_name)),
            Some(Datum::Integer(exp)),
            Some(Datum::Text(type_key)),
        ) => Some(ClaimsRefreshView { id, user_name, exp, type_key }),
        _ => None,
    }
}

/// What [`decode_refresh_token`] returns for a token read under `secret` at
/// `now`.
pub open spec fn refresh_decoding(token: Seq<char>, secret: Seq<char>, now: i64) -> Result<ClaimsRefreshView, TokenError> {
    match jwt_payload(token, secret) {
        None => Err(TokenError::Malformed),
        Some(p) => match refresh_claims_of(p) {
            None => Err(TokenError::Malformed),
            Some(c) => if unexpired(c.exp, now) {
                Ok(c)
            } else {
                Err(TokenError::Expired)
            },
        },
    }
}

/// Reading back the payload of refresh claims gives the same claims.
pub proof fn lemma_refresh_payload_round_trip(c: ClaimsRefreshView)
    ensures
        refresh_claims_of(refresh_payload(c)) == Some(c),
{
    lemma_names_distinct();
    let p = refresh_payload(c);
    let head3 = p.drop_last();
    let head2 = head3.drop_last();
    let head1 = head2.drop_last();
    assert(head3 =~= seq![
        ("id"@, Datum::Text(c.id)),
        ("user_name"@, Datum::Text(c.user_name)),
        ("exp"@, Datum::Integer(c.exp)),
    ]);
    assert(head2 =~= seq![("id"@, Datum::Text(c.id)), ("user_name"@, Datum::Text(c.user_name))]);
    assert(head1 =~= seq![("id"@, Datum::Text(c.id))]);
    assert(head1.drop_last() =~= Seq::<(Seq<char>, Datum)>::empty());
    assert(field(head1, "id"@) == Some(Datum::Text(c.id)));
    assert(field(head2, "id"@) == Some(Datum::Text(c.id)));
    assert(field(head3, "id"@) == Some(Datum::Text(c.id)));
    assert(field(head2, "user_name"@) == Some(Datum::Text(c.user_name)));
    assert(field(head3, "user_name"@) == Some(Datum::Text(c.user_name)));
    assert(field(head3, "exp"@) == Some(Datum::Integer(c.exp)));
    assert(field(p, "id"@) == Some(Datum::Text(c.id)));
    assert(field(p, "user_name"@) == Some(Datum::Text(c.user_name)));
    assert(field(p, "exp"@) == Some(Datum::Integer(c.exp)));
    assert(field(p, "type_key"@) == Some(Datum::Text(c.type_key)));
}

/// The kind marker of refresh claims.
pub open spec fn refresh_kind() -> Seq<char> {
    "refresh"@
}

impl ClaimsRefresh {
    /// Refresh claims for a subject, expiring `config.jwt_refresh_exp`
    /// minutes after `now`.
    pub fn new(user_id: &str, user_name: &str, config: &Config, now: i64) -> (r: ClaimsRefresh)
        ensures
            r@ == (ClaimsRefreshView {
                id: user_id@,
                user_name: user_name@,
                exp: expiry_after(now, config.jwt_refresh_exp),
                type_key: refresh_kind(),
            }),
    {
        ClaimsRefresh {
            id: String::from_str(user_id),
            user_name: String::from_str(user_name),
            exp: expiry_time(now, config.jwt_refresh_exp),
            type_key: String::from_str("refresh"),
        }
    }

    /// The payload that carries these claims.
    pub fn to_payload(&self) -> (r: Vec<(String, FieldValue)>)
        ensures
            fields_view(r@) == refresh_payload(self@),
    {
        let mut p: Vec<(String, FieldValue)> = Vec::new();
        p.push((String::from_str("id"), FieldValue::Text(self.id.clone())));
        p.push((String::from_str("user_name"), FieldValue::Text(self.user_name.clone())));
        p.push((String::from_str("exp"), FieldValue::Integer(self.exp)));
        p.push((String::from_str("type_key"), FieldValue::Text(self.type_key.clone())));
        proof {
            assert(fields_view(p@) =~= refresh_payload(self@));
        }
        p
    }

    /// The refresh claims that a payload carries, if it names all four.
    pub fn from_payload(p: &Vec<(String, FieldValue)>) -> (r: Option<ClaimsRefresh>)
        ensures
            match refresh_claims_of(fields_view(p@)) {
                Some(c) => r is Some && r.unwrap()@ == c,
                None => r is None,
            },
    {
        let id = text_field(p, &String::from_str("id"));
        let user_name = text_field(p, &String::from_str("user_name"));
        let exp = integer_field(p, &String::from_str("exp"));
        let type_key = text_field(p, &String::from_str("type_key"));
        match (id, user_name, exp, type_key) {
            (Some(id), Some(user_name), Some(exp), Some(type_key)) => Some(
                ClaimsRefresh { id, user_name, exp, type_key },
            ),
            _ => None,
        }
    }
}

/// Signs refresh claims with the shared secret. An empty secret is refused.
pub fn encode_refresh_token(claims: &ClaimsRefresh, jwt_secret: String) -> (r: Result<String, TokenError>)
    ensures
        jwt_secret@.len() == 0 ==> r == Err::<String, TokenError>(TokenError::SigningError),
        jwt_secret@.len() > 0 ==> r is Ok,
        r is Ok ==> r.unwrap()@ == jwt_text(refresh_payload(claims@), jwt_secret@),
        r is Ok ==> forall|now: i64| #[trigger]
            refresh_decoding(r.unwrap()@, jwt_secret@, now) == if unexpired(claims.exp, now) {
                Ok::<ClaimsRefreshView, TokenError>(claims@)
            } else {
                Err::<ClaimsRefreshView, TokenError>(TokenError::Expired)
            },
        r is Err ==> r == Err::<String, TokenError>(TokenError::SigningError),
{
    if jwt_secret.as_str().is_empty() {
        return Err(TokenError::SigningError);
    }
    let payload = claims.to_payload();
    match jwt_sign(&payload, jwt_secret.as_str()) {
        Some(token) => {
            proof {
                let back = jwt_payload(token@, jwt_secret@).unwrap();
                let p = refresh_payload(claims@);
                lemma_refresh_payload_round_trip(claims@);
                assert(field(back, "id"@) == field(p, "id"@));
                assert(field(back, "user_name"@) == field(p, "user_name"@));
                assert(field(back, "exp"@) == field(p, "exp"@));
                assert(field(back, "type_key"@) == field(p, "type_key"@));
            }
            Ok(token)
        },
        None => Err(TokenError::SigningError),
    }
}

/// Checks a token's signature with the shared secret and reads its refresh
/// claims; fails on a bad signature, a malformed token, or claims that
/// expired before `now`.
pub fn decode_refresh_token(token: &str, jwt_secret: String, now: i64) -> (r: Result<ClaimsRefresh, TokenError>)
    ensures
        match refresh_decoding(token@, jwt_secret@, now) {
            Ok(c) => r is Ok && r.unwrap()@ == c,
            Err(e) => r == Err::<ClaimsRefresh, TokenError>(e),
        },
{
    match jwt_open(token, jwt_secret.as_str()) {
        None => Err(TokenError::Malformed),
        Some(payload) => match ClaimsRefresh::from_payload(&payload) {
            None => Err(TokenError::Malformed),
            Some(c) => if now <= c.exp {
                Ok(c)
            } else {
                Err(TokenError::Expired)
            },
        },
    }
}


/// The credential a request carries: the bearer token, if any.
pub struct UserApiKey {
    pub token: Option<String>,
}

} // verus!
