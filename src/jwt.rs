//! Signed bearer tokens (HS256) that carry the caller's identity.

use vstd::prelude::*;
use std::collections::BTreeMap;
use crate::clock::{now_micros, seconds_of};
use crate::config::SecretConfig;
use crate::error::{AppError, detail_of};

verus! {

/// How long an issued token stays valid, in seconds.
pub const TOKEN_LIFETIME_SECS: i64 = 86400;

/// What a token says about its holder.
#[derive(Debug, Clone)]
pub struct Claims {
    pub username: String,
    pub email: String,
    pub id: i64,
    /// Expiry, in seconds since the Unix epoch.
    pub exp: i64,
}

/// The view of claims as plain values.
pub open spec fn claims_view(c: Claims) -> (Seq<char>, Seq<char>, int, int) {
    (c.username@, c.email@, c.id as int, c.exp as int)
}

/// The token that HS256 signing with `secret` gives for these claims, if any.
pub uninterp spec fn signed_token_of(
    secret: Seq<char>,
    username: Seq<char>,
    email: Seq<char>,
    id: int,
    exp: int,
) -> Option<Seq<char>>;

/// The claims a token carries when its HS256 signature under `secret` is
/// valid and its payload holds them; expiry is not looked at.
pub uninterp spec fn token_claims_of(secret: Seq<char>, token: Seq<char>) -> Option<(Seq<char>, Seq<char>, int, int)>;

pub open spec fn text_view(r: Option<String>) -> Option<Seq<char>> {
    match r {
        Some(t) => Some(t@),
        None => None,
    }
}

pub open spec fn tuple_view(r: Option<(String, String, i64, i64)>) -> Option<(Seq<char>, Seq<char>, int, int)> {
    match r {
        Some(t) => Some((t.0@, t.1@, t.2 as int, t.3 as int)),
        None => None,
    }
}

/// Relies on `jsonwebtoken::encode` with an HS256 header and a key made by
/// `EncodingKey::from_secret`; the claims are a JSON object with the four
/// fields. Signing is deterministic: the token depends on its inputs alone.
/// `encode` fails only when the key's family does not fit the algorithm,
/// which an HMAC key under HS256 always does; decoding the token under the
/// same secret (HS256, no time checks, no audience, no required claims)
/// gives back the four values.
#[verifier::external_body]
fn sign_claims(secret: &str, username: &str, email: &str, id: i64, exp: i64) -> (r: Option<String>)
    ensures
        text_view(r) == signed_token_of(secret@, username@, email@, id as int, exp as int),
        r is Some,
        r matches Some(t) ==> token_claims_of(secret@, t@) == Some((username@, email@, id as int, exp as int)),
{
    let claims: BTreeMap<&str, serde_json::Value> = BTreeMap::from([
        ("username", serde_json::Value::from(username)),
        ("email", serde_json::Value::from(email)),
        ("id", serde_json::Value::from(id)),
        ("exp", serde_json::Value::from(exp)),
    ]);
    let header = jsonwebtoken::Header::new(jsonwebtoken::Algorithm::HS256);
    jsonwebtoken::encode(&header, &claims, &jsonwebtoken::EncodingKey::from_secret(secret.as_bytes())).ok()
}

/// Relies on `jsonwebtoken::decode` with HS256 and a key made by
/// `DecodingKey::from_secret`, with the expiry check switched off (it is made
/// by the caller); the four fields are then read from the JSON payload.
/// Whether and what it returns depends on the secret and the token alone.
#[verifier::external_body]
fn read_claims(secret: &str, token: &str) -> (r: Option<(String, String, i64, i64)>)
    ensures
        tuple_view(r) == token_claims_of(secret@, token@),
{
    let mut validation = jsonwebtoken::Validation::new(jsonwebtoken::Algorithm::HS256);
    validation.validate_exp = false;
    validation.required_spec_claims.clear();
    let key = jsonwebtoken::DecodingKey::from_secret(secret.as_bytes());
    let c = jsonwebtoken::decode::<BTreeMap<String, serde_json::Value>>(token, &key, &validation).ok()?.claims;
    Some((c.get("username")?.as_str()?.to_string(), c.get("email")?.as_str()?.to_string(),
        c.get("id")?.as_i64()?, c.get("exp")?.as_i64()?))
}

/// `token` reads, under the service's secret, as this identity with some expiry.
pub open spec fn carries(jwt: JwtService, token: Seq<char>, username: Seq<char>, email: Seq<char>, id: int) -> bool {
    token_claims_of(jwt.key(), token) matches Some(c) && c.0 == username && c.1 == email && c.2 == id
}

/// Issues and checks tokens under one process-wide secret.
#[derive(Debug)]
pub struct JwtService {
    secret: String,
}

impl JwtService {
    /// The secret the service signs with.
    pub closed spec fn key(&self) -> Seq<char> {
        self.secret@
    }

    pub fn new(secret_config: &SecretConfig) -> (r: JwtService)
        ensures
            r.key() == secret_config.jwt_secret@,
    {
        JwtService { secret: secret_config.jwt_secret.clone() }
    }

    /// A second handle on the same secret.
    pub fn clone_service(&self) -> (r: JwtService)
        ensures
            r == *self,
    {
        JwtService { secret: self.secret.clone() }
    }

    /// A token for the user, expiring a day from now. It always succeeds,
    /// and the token verifies (until it expires) as exactly this user.
    pub fn generate_token(&self, username: &str, email: &str, user_id: i64) -> (r: Result<String, AppError>)
        ensures
            r is Ok,
            r matches Ok(t) ==> carries(*self, t@, username@, email@, user_id as int),
    {
        self.generate_token_at(username, email, user_id, seconds_of(now_micros()))
    }

    /// A token for the user, expiring a day after `now` (seconds since the
    /// epoch). Fails only where that instant does not fit, or signing fails.
    pub fn generate_token_at(&self, username: &str, email: &str, user_id: i64, now: i64) -> (r: Result<String, AppError>)
        ensures
            now + TOKEN_LIFETIME_SECS > i64::MAX ==> (r matches Err(e) && e is InternalError
                && detail_of(e) == "Can't generate timestamp of jwt token"@),
            now + TOKEN_LIFETIME_SECS <= i64::MAX ==> (r matches Ok(t) && token_claims_of(self.key(), t@) == Some(
                (username@, email@, user_id as int, now + TOKEN_LIFETIME_SECS),
            )),
            now + TOKEN_LIFETIME_SECS <= i64::MAX ==> match signed_token_of(
                self.key(),
                username@,
                email@,
                user_id as int,
                now + TOKEN_LIFETIME_SECS,
            ) {
                Some(t) => (r matches Ok(x) && x@ == t),
                None => (r matches Err(e) && e is InternalError && detail_of(e) == "Can't create jwt token"@),
            },
    {
        if now > i64::MAX - TOKEN_LIFETIME_SECS {
            return Err(AppError::InternalError(String::from_str("Can't generate timestamp of jwt token")));
        }
        let exp = now + TOKEN_LIFETIME_SECS;
        match sign_claims(self.secret.as_str(), username, email, user_id, exp) {
            Some(t) => Ok(t),
            None => Err(AppError::InternalError(String::from_str("Can't create jwt token"))),
        }
    }

    /// The claims of a token signed with this service's secret and not expired.
    pub fn verify_token(&self, token: &str) -> (r: Option<Claims>)
        ensures
            r matches Some(c) ==> token_claims_of(self.key(), token@) == Some(claims_view(c)),
            token_claims_of(self.key(), token@) is None ==> r is None,
    {
        self.verify_token_at(token, seconds_of(now_micros()))
    }

    /// The claims of `token` when its signature is valid and its expiry is
    /// not before `now`; no tolerance for clock skew.
    pub fn verify_token_at(&self, token: &str, now: i64) -> (r: Option<Claims>)
        ensures
            match token_claims_of(self.key(), token@) {
                Some(c) => if c.3 >= now {
                    (r matches Some(x) && claims_view(x) == c)
                } else {
                    r is None
                },
                None => r is None,
            },
    {
        match read_claims(self.secret.as_str(), token) {
            Some((username, email, id, exp)) => {
                if exp >= now {
                    Some(Claims { username, email, id, exp })
                } else {
                    None
                }
            },
            None => None,
        }
    }
}

} // verus!
