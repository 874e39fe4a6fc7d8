//! Tokens and credentials: issuing and validating signed, time-limited
//! bearer tokens, salted password hashing, and the request gate that turns
//! an Authorization header into an authenticated subject.
//!
//! A token carries a subject (the canonical text of a user identifier) and
//! an expiry timestamp. Signing goes through the outside JWT crate behind
//! trusted wrappers; expiry is checked here, against an explicit clock
//! value, so that validity is a proved property of the claims.

use vstd::prelude::*;
use vstd::seq_lib::*;

use crate::TOKEN_LIFETIME_SECS;
use crate::ids::{format_uuid, parse_uuid, parsed_uuid_of, uuid_str_of};

verus! {

/// The symmetric signing secret.
pub open spec fn token_secret() -> Seq<char> {
    "secretkey"@
}

fn secret_str() -> (s: &'static str)
    ensures
        s@ == token_secret(),
{
    "secretkey"
}

/// The fixed site-wide salt prepended to passwords before hashing.
pub open spec fn password_salt() -> Seq<char> {
    "bugtrack2025"@
}

pub(crate) fn salt_str() -> (s: &'static str)
    ensures
        s@ == password_salt(),
{
    "bugtrack2025"
}

/// The token the JWT encoder produces for a secret, a subject and an
/// expiry.
pub uninterp spec fn token_of(secret: Seq<char>, sub: Seq<char>, exp: u64) -> Seq<char>;

/// The claims the JWT decoder reads back from a token under a secret:
/// subject and expiry, or nothing when the token does not verify.
pub uninterp spec fn claims_of(secret: Seq<char>, token: Seq<char>) -> Option<(Seq<char>, u64)>;

/// What the outside bcrypt check returns for a password and a hash text:
/// a match verdict, or nothing when the hash text is malformed.
pub uninterp spec fn bcrypt_verify_of(password: Seq<char>, hash: Seq<char>) -> Option<bool>;

/// Relies on jsonwebtoken::encode with the default (HS256) header and an
/// HMAC secret: the token is a function of the secret and the claims
/// alone. Encoding a string-and-integer claim set with an HMAC key does
/// not fail.
#[verifier::external_body]
fn encode_claims(secret: &str, sub: &str, exp: u64) -> (t: String)
    ensures
        t@ == token_of(secret@, sub@, exp),
{
    let mut claims = serde_json::Map::new();
    claims.insert("sub".to_string(), serde_json::Value::String(sub.to_string()));
    claims.insert("exp".to_string(), serde_json::Value::from(exp));
    let key = jsonwebtoken::EncodingKey::from_secret(secret.as_bytes());
    let header = jsonwebtoken::Header::default();
    jsonwebtoken::encode(&header, &serde_json::Value::Object(claims), &key).unwrap()
}

/// Relies on jsonwebtoken::decode under HS256 with expiry validation
/// turned off: the claims read back are a function of the secret and the
/// token alone, and a token that jsonwebtoken::encode produced from a
/// subject and an expiry yields back exactly that subject and expiry.
#[verifier::external_body]
fn decode_claims(secret: &str, token: &str) -> (r: Option<(String, u64)>)
    ensures
        r matches Some(c) ==> claims_of(secret@, token@) == Some((c.0@, c.1)),
        r is None ==> claims_of(secret@, token@) is None,
        r is None ==> forall|sub: Seq<char>, exp: u64| token@ != token_of(secret@, sub, exp),
        r matches Some(c) ==> forall|sub: Seq<char>, exp: u64|
            token@ == token_of(secret@, sub, exp) ==> c.0@ == sub && c.1 == exp,
{
    let key = jsonwebtoken::DecodingKey::from_secret(secret.as_bytes());
    let mut validation = jsonwebtoken::Validation::default();
    validation.validate_exp = false;
    let data = match jsonwebtoken::decode::<serde_json::Value>(token, &key, &validation) {
        Ok(d) => d,
        Err(_) => return None,
    };
    let sub = match data.claims.get("sub").and_then(|v| v.as_str()) {
        Some(s) => s.to_string(),
        None => return None,
    };
    match data.claims.get("exp").and_then(|v| v.as_u64()) {
        Some(exp) => Some((sub, exp)),
        None => None,
    }
}

/// Relies on bcrypt::verify: the verdict is a function of the password and
/// the hash text alone; an error comes exactly on a malformed hash text,
/// never from the password.
#[verifier::external_body]
fn bcrypt_check(password: &str, hash: &str) -> (r: Result<bool, bcrypt::BcryptError>)
    ensures
        r matches Ok(b) ==> bcrypt_verify_of(password@, hash@) == Some(b),
        r is Err ==> bcrypt_verify_of(password@, hash@) is None,
{
    bcrypt::verify(password, hash)
}

/// Relies on bcrypt::hash with the crate's default cost: a freshly salted
/// hash text that bcrypt::verify accepts for the same password. The salt
/// is drawn from the operating system, so nothing else is assumed of the
/// text.
#[verifier::external_body]
fn bcrypt_hash(password: &str) -> (r: Result<String, bcrypt::BcryptError>)
    ensures
        r matches Ok(h) ==> bcrypt_verify_of(password@, h@) == Some(true),
{
    bcrypt::hash(password, bcrypt::DEFAULT_COST)
}

/// The outside bcrypt error type, carried through unchanged.
#[verifier::external_type_specification]
#[verifier::external_body]
pub struct ExBcryptError(bcrypt::BcryptError);

/// Hashes a password under the site salt; the result verifies against the
/// same salted password.
pub fn hash_with_salt(password: &str, salt: &str) -> (r: Result<String, bcrypt::BcryptError>)
    ensures
        r matches Ok(h) ==> bcrypt_verify_of(salt@ + password@, h@) == Some(true),
{
    let mut salted = String::from_str(salt);
    salted.append(password);
    bcrypt_hash(salted.as_str())
}

/// Checks a password against a stored hash under the given salt.
pub fn verify_with_salt(password: &str, salt: &str, hash: &str) -> (r: Result<
    bool,
    bcrypt::BcryptError,
>)
    ensures
        bcrypt_verify_of(salt@ + password@, hash@) == match r {
            Ok(b) => Some(b),
            Err(_) => None::<bool>,
        },
{
    let mut salted = String::from_str(salt);
    salted.append(password);
    bcrypt_check(salted.as_str(), hash)
}

/// Issues a token for a subject: expiry is `now` plus the fixed lifetime.
pub fn create_token(user_id: u128, now: u64) -> (t: String)
    requires
        now + TOKEN_LIFETIME_SECS <= u64::MAX,
    ensures
        t@ == token_of(token_secret(), uuid_str_of(user_id), (now + TOKEN_LIFETIME_SECS) as u64),
{
    let sub = format_uuid(user_id);
    encode_claims(secret_str(), sub.as_str(), now + TOKEN_LIFETIME_SECS)
}

/// A token is valid at `now` when it decodes under the secret and its
/// expiry lies strictly in the future.
pub open spec fn token_valid_spec(token: Seq<char>, now: u64) -> bool {
    match claims_of(token_secret(), token) {
        Some(c) => now < c.1,
        None => false,
    }
}

/// The subject a token resolves to at `now`: the parse of its subject
/// claim, if the token is valid, nothing otherwise.
pub open spec fn token_subject_spec(token: Seq<char>, now: u64) -> Option<u128> {
    match claims_of(token_secret(), token) {
        Some(c) => if now < c.1 {
            parsed_uuid_of(c.0)
        } else {
            None
        },
        None => None,
    }
}

/// Verifies signature and expiry; all failure causes collapse to `false`.
pub fn validate_token(token: &str, now: u64) -> (r: bool)
    ensures
        r == token_valid_spec(token@, now),
        forall|sub: Seq<char>, exp: u64|
            token@ == token_of(token_secret(), sub, exp) ==> r == (now < exp),
{
    match decode_claims(secret_str(), token) {
        Some((_sub, exp)) => now < exp,
        None => false,
    }
}

/// Resolves a token to its subject identifier; any failure (bad signature,
/// expiry passed, unparsable subject) yields nothing.
pub fn extract_user_id_from_token(token: &str, now: u64) -> (r: Option<u128>)
    ensures
        r == token_subject_spec(token@, now),
        forall|uid: u128, exp: u64|
            token@ == token_of(token_secret(), uuid_str_of(uid), exp) && now < exp ==> r == Some(
                uid,
            ),
{
    match decode_claims(secret_str(), token) {
        Some((sub, exp)) => if now < exp {
            parse_uuid(sub.as_str())
        } else {
            None
        },
        None => None,
    }
}

/// The token inside an Authorization header value, when the value carries
/// the bearer scheme.
pub open spec fn bearer_token_of(header: Seq<char>) -> Option<Seq<char>> {
    if "Bearer "@.is_prefix_of(header) {
        Some(header.skip("Bearer "@.len() as int))
    } else {
        None
    }
}

/// Relies on str::strip_prefix: the remainder after the prefix when the
/// string starts with it, nothing otherwise.
#[verifier::external_body]
fn strip_prefix_str<'a>(s: &'a str, prefix: &str) -> (r: Option<&'a str>)
    ensures
        match r {
            Some(rest) => s@ == prefix@ + rest@,
            None => !prefix@.is_prefix_of(s@),
        },
{
    s.strip_prefix(prefix)
}

/// The subject the authentication stage resolves for a request, from its
/// Authorization header and the clock.
pub open spec fn gate_subject_spec(header: Option<Seq<char>>, now: u64) -> Option<u128> {
    match header {
        Some(h) => match bearer_token_of(h) {
            Some(t) => token_subject_spec(t, now),
            None => None,
        },
        None => None,
    }
}

/// The request-authentication gate. Wrapped around the mutating routes, it
/// walks a request from its Authorization header to an authenticated
/// subject, or rejects it.
pub struct AuthMiddleware;

impl AuthMiddleware {
    /// One authorization pass: header checked, token validated, subject
    /// resolved; any missing step rejects the request.
    pub fn authorize(&self, header: Option<&str>, now: u64) -> (r: Option<u128>)
        ensures
            r == gate_subject_spec(
                match header {
                    Some(h) => Some(h@),
                    None => None,
                },
                now,
            ),
            forall|uid: u128, exp: u64|
                (header matches Some(h) && bearer_token_of(h@) == Some(
                    #[trigger] token_of(token_secret(), uuid_str_of(uid), exp),
                ) && now < exp) ==> r == Some(uid),
    {
        // Start -> HeaderChecked: the header must carry the bearer scheme.
        let h = match header {
            Some(h) => h,
            None => return None,
        };
        let token = match strip_prefix_str(h, "Bearer ") {
            Some(rest) => {
                proof {
                    assert(("Bearer "@).is_prefix_of(h@)) by {
                        assert(h@.subrange(0, "Bearer "@.len() as int) =~= "Bearer "@);
                    }
                    assert(h@.skip("Bearer "@.len() as int) =~= rest@);
                }
                rest
            },
            None => return None,
        };
        // HeaderChecked -> TokenValidated: signature and expiry.
        if !validate_token(token, now) {
            return None;
        }
        // TokenValidated -> SubjectResolved -> Authorized.
        extract_user_id_from_token(token, now)
    }
}

/// A token issued at `now` is valid at `read_at` exactly while `read_at`
/// lies before the expiry `now` plus the token lifetime: in particular it
/// is valid immediately, and invalid once the expiry has passed.
pub fn issue_then_validate(user_id: u128, now: u64, read_at: u64) -> (r: bool)
    requires
        now + TOKEN_LIFETIME_SECS <= u64::MAX,
    ensures
        r == (read_at < now + TOKEN_LIFETIME_SECS),
{
    let token = create_token(user_id, now);
    validate_token(token.as_str(), read_at)
}

} // verus!
