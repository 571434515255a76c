//! The token service: signed, time-bound identity claims.
//!
//! A token is a self-contained signed string carrying `{subject, issued-at,
//! expiry}` in epoch seconds, verified statelessly. Issuing builds a claim
//! with `expiry = now + lifetime(class)` — access tokens live 12 hours,
//! refresh tokens 168 — and signs it with the injected process-wide secret.
//! Verification checks the signature (through the signing library) and the
//! expiry (in verified code, against the caller-supplied clock reading); it
//! does not check the token class, but the class can be read off a claim's
//! validity window with [`Claims::token_class`].
use vstd::prelude::*;

use crate::error::AppError;

verus! {

/// The decoded content of a signed token.
pub struct Claims {
    pub sub: String,
    pub exp: i64,
    pub iat: i64,
}

pub struct ClaimsView {
    pub sub: Seq<char>,
    pub exp: int,
    pub iat: int,
}

impl View for Claims {
    type V = ClaimsView;

    open spec fn view(&self) -> ClaimsView {
        ClaimsView { sub: self.sub@, exp: self.exp as int, iat: self.iat as int }
    }
}

impl Clone for Claims {
    fn clone(&self) -> (res: Claims)
        ensures
            res@ == self@,
    {
        Claims { sub: self.sub.clone(), exp: self.exp, iat: self.iat }
    }
}

/// The two kinds of bearer credential, distinguished by their validity
/// windows.
#[derive(Clone, Copy, Debug, PartialEq, Eq, Structural)]
pub enum TokenClass {
    Access,
    Refresh,
}

pub const ACCESS_TOKEN_EXPIRATION_HOURS: i64 = 12;

pub const REFRESH_TOKEN_EXPIRATION_HOURS: i64 = 24 * 7;

/// The lifetime of a token of this class, in hours.
pub open spec fn lifetime_hours(class: TokenClass) -> int {
    match class {
        TokenClass::Access => ACCESS_TOKEN_EXPIRATION_HOURS as int,
        TokenClass::Refresh => REFRESH_TOKEN_EXPIRATION_HOURS as int,
    }
}

/// The lifetime of a token of this class, in seconds.
pub open spec fn lifetime_secs(class: TokenClass) -> int {
    lifetime_hours(class) * 3600
}

/// The claims carried by `token` if it is a well-formed token signed with
/// `secret`, and nothing otherwise. Whether a string verifies, and what it
/// carries, is a function of the two strings alone.
pub uninterp spec fn signed_claims(secret: Seq<u8>, token: Seq<char>) -> Option<
    (Seq<char>, int, int),
>;

/// The token string that signing the claims `{sub, iat, exp}` under
/// `secret` produces. Signing is deterministic: the same claims and secret
/// always yield the same string.
pub uninterp spec fn token_of(secret: Seq<u8>, sub: Seq<char>, iat: int, exp: int) -> Seq<char>;

#[verifier::external_type_specification]
#[verifier::external_body]
pub struct ExJwtError(jsonwebtoken::errors::Error);

/// Relies on jsonwebtoken::encode with an HS256 key and claims
/// `{sub, iat, exp}`. Signing never fails here: an HMAC key may have any
/// length and serializing the fixed header and a JSON object is infallible,
/// so the call depends on its arguments alone. The token is the non-empty
/// dot-joined header, claims and signature, and carries, under the same
/// secret, exactly the claims it was built from.
#[verifier::external_body]
fn encode_claims(secret: &Vec<u8>, sub: &String, iat: i64, exp: i64) -> (r: Result<
    String,
    jsonwebtoken::errors::Error,
>)
    ensures
        r is Ok,
        r matches Ok(t) ==> t@ == token_of(secret@, sub@, iat as int, exp as int) && t@.len() > 0
            && signed_claims(secret@, t@) == Some((sub@, iat as int, exp as int)),
{
    let mut claims = serde_json::Map::new();
    claims.insert("sub".to_string(), serde_json::Value::String(sub.clone()));
    claims.insert("iat".to_string(), serde_json::Value::Number(serde_json::Number::from(iat)));
    claims.insert("exp".to_string(), serde_json::Value::Number(serde_json::Number::from(exp)));
    jsonwebtoken::encode(
        &jsonwebtoken::Header::default(),
        &serde_json::Value::Object(claims),
        &jsonwebtoken::EncodingKey::from_secret(secret.as_slice()),
    )
}

/// Relies on jsonwebtoken::decode with an HS256 key, signature check only
/// (the expiry check is done by verified code against an explicit clock
/// reading): whether a token decodes under a secret, and to which claims,
/// is a function of the two strings alone.
#[verifier::external_body]
fn decode_claims(secret: &Vec<u8>, token: &String) -> (r: Option<Claims>)
    ensures
        r is Some <==> signed_claims(secret@, token@) is Some,
        r matches Some(c) ==> signed_claims(secret@, token@) == Some(
            (c.sub@, c.iat as int, c.exp as int),
        ),
{
    let mut validation = jsonwebtoken::Validation::new(jsonwebtoken::Algorithm::HS256);
    validation.validate_exp = false;
    validation.validate_aud = false;
    validation.required_spec_claims = std::collections::HashSet::new();
    let key = jsonwebtoken::DecodingKey::from_secret(secret.as_slice());
    let data = jsonwebtoken::decode::<serde_json::Value>(token, &key, &validation).ok()?;
    let sub = data.claims.get("sub")?.as_str()?.to_string();
    let iat = data.claims.get("iat")?.as_i64()?;
    let exp = data.claims.get("exp")?.as_i64()?;
    Some(Claims { sub, exp, iat })
}

/// Relies on chrono::Utc::now for the current time in epoch seconds;
/// nothing is promised of the clock's reading.
#[verifier::external_body]
fn current_timestamp() -> i64 {
    chrono::Utc::now().timestamp()
}

/// The lifetime of a token of this class, in hours (executable form).
pub fn expiration_hours(class: TokenClass) -> (r: i64)
    ensures
        r == lifetime_hours(class),
{
    match class {
        TokenClass::Access => ACCESS_TOKEN_EXPIRATION_HOURS,
        TokenClass::Refresh => REFRESH_TOKEN_EXPIRATION_HOURS,
    }
}

/// Issues a token for `subject` of the given class: a claim issued at `now`
/// expiring `lifetime_secs(class)` later, signed with `secret`. Issuance is
/// deterministic given subject, class and `now`, and fails exactly when the
/// expiry would not fit a timestamp, surfaced as `TokenError`.
pub fn issue(secret: &Vec<u8>, subject: &String, class: TokenClass, now: i64) -> (r: Result<
    String,
    AppError,
>)
    ensures
        r is Ok <==> now + lifetime_secs(class) <= i64::MAX,
        r matches Ok(t) ==> t@ == token_of(
            secret@,
            subject@,
            now as int,
            now + lifetime_secs(class),
        ) && t@.len() > 0 && signed_claims(secret@, t@) == Some(
            (subject@, now as int, now + lifetime_secs(class)),
        ),
        r matches Err(e) ==> e matches AppError::TokenError(m) && m@
            == "Token lifetime overflow"@,
{
    let hours = expiration_hours(class);
    let secs: i64 = hours * 3600;
    let exp = match now.checked_add(secs) {
        Some(exp) => exp,
        None => {
            return Err(AppError::TokenError("Token lifetime overflow".to_owned()));
        },
    };
    match encode_claims(secret, subject, now, exp) {
        Ok(t) => Ok(t),
        // not reachable: signing a claim with a secret key does not fail
        Err(_) => Err(AppError::TokenError("Token lifetime overflow".to_owned())),
    }
}

/// Builds and signs a claim for `email` issued at the current clock reading
/// and expiring `expiration_hours` hours later. Fails exactly when the
/// requested lifetime or the expiry overflows a timestamp for the clock
/// reading the call happened to see.
pub fn create_token(secret: &Vec<u8>, email: &String, expiration_hours: i64) -> (r: Result<
    String,
    AppError,
>)
    ensures
        r matches Ok(t) ==> t@.len() > 0 && exists|iat: int, exp: int|
            #[trigger] signed_claims(secret@, t@) == Some((email@, iat, exp)) && t@ == token_of(
                secret@,
                email@,
                iat,
                exp,
            ) && exp == iat + expiration_hours * 3600,
        r matches Err(e) ==> e matches AppError::TokenError(m) && m@
            == "Token lifetime overflow"@,
{
    let now = current_timestamp();
    let secs = match expiration_hours.checked_mul(3600) {
        Some(secs) => secs,
        None => {
            return Err(AppError::TokenError("Token lifetime overflow".to_owned()));
        },
    };
    let exp = match now.checked_add(secs) {
        Some(exp) => exp,
        None => {
            return Err(AppError::TokenError("Token lifetime overflow".to_owned()));
        },
    };
    match encode_claims(secret, email, now, exp) {
        Ok(t) => Ok(t),
        // not reachable: signing a claim with a secret key does not fail
        Err(_) => Err(AppError::TokenError("Token lifetime overflow".to_owned())),
    }
}

/// What verification yields for a token at time `now`: the carried claims
/// when the signature is valid and the token has not expired, nothing
/// otherwise.
pub open spec fn verify_outcome(secret: Seq<u8>, token: Seq<char>, now: int) -> Option<
    (Seq<char>, int, int),
> {
    match signed_claims(secret, token) {
        Some((sub, iat, exp)) => if now <= exp {
            Some((sub, iat, exp))
        } else {
            None
        },
        None => None,
    }
}

/// Decodes a token and checks its signature and expiry against the given
/// clock reading. Fails with `TokenError` exactly when the token is
/// malformed, carries an invalid signature, or `now` is past its expiry.
/// The token class is not checked; callers that must distinguish access
/// from refresh tokens check the claim's class themselves.
pub fn verify_token(secret: &Vec<u8>, token: &String, now: i64) -> (r: Result<Claims, AppError>)
    ensures
        r is Ok <==> verify_outcome(secret@, token@, now as int) is Some,
        r matches Ok(c) ==> verify_outcome(secret@, token@, now as int) == Some(
            (c.sub@, c.iat as int, c.exp as int),
        ),
        r matches Err(e) ==> e matches AppError::TokenError(m) && (if signed_claims(
            secret@,
            token@,
        ) is None {
            m@ == "Invalid token"@
        } else {
            m@ == "Token expired"@
        }),
{
    match decode_claims(secret, token) {
        None => Err(AppError::TokenError("Invalid token".to_owned())),
        Some(c) => {
            if now > c.exp {
                Err(AppError::TokenError("Token expired".to_owned()))
            } else {
                Ok(c)
            }
        },
    }
}

/// The class a claim's validity window identifies, if any.
pub open spec fn class_of_window(iat: int, exp: int) -> Option<TokenClass> {
    if exp - iat == lifetime_secs(TokenClass::Access) {
        Some(TokenClass::Access)
    } else if exp - iat == lifetime_secs(TokenClass::Refresh) {
        Some(TokenClass::Refresh)
    } else {
        None
    }
}

impl Claims {
    /// Reads the token class off the claim's validity window: the two
    /// classes use distinguishable lifetimes, so a claim identifies the
    /// class it was issued as (or none, for a window this service never
    /// issues).
    pub fn token_class(&self) -> (r: Option<TokenClass>)
        ensures
            r == class_of_window(self@.iat, self@.exp),
    {
        let window = match self.exp.checked_sub(self.iat) {
            Some(w) => w,
            None => {
                return None;
            },
        };
        if window == ACCESS_TOKEN_EXPIRATION_HOURS * 3600 {
            Some(TokenClass::Access)
        } else if window == REFRESH_TOKEN_EXPIRATION_HOURS * 3600 {
            Some(TokenClass::Refresh)
        } else {
            None
        }
    }
}

/// Law (claim well-formedness): both token classes have a positive
/// lifetime, so an issued claim's expiry is strictly greater than its
/// issued-at timestamp, and the two classes have distinguishable validity
/// windows.
pub proof fn lemma_validity_windows(class: TokenClass)
    ensures
        lifetime_secs(class) > 0,
        lifetime_secs(TokenClass::Access) != lifetime_secs(TokenClass::Refresh),
        class_of_window(0, lifetime_secs(class)) == Some(class),
{
}

/// Law (round trip): a token issued for a subject with any class verifies
/// before its expiry, and the verified claim carries the same subject.
pub proof fn lemma_issue_verify_round_trip(
    secret: Seq<u8>,
    token: Seq<char>,
    subject: Seq<char>,
    class: TokenClass,
    t0: int,
    now: int,
)
    requires
        signed_claims(secret, token) == Some((subject, t0, t0 + lifetime_secs(class))),
        now <= t0 + lifetime_secs(class),
    ensures
        verify_outcome(secret, token, now) == Some((subject, t0, t0 + lifetime_secs(class))),
{
}

/// Law (expiry boundary): a token issued at `t0` with lifetime `l` still
/// verifies one second before `t0 + l` and no longer verifies one second
/// after it.
pub proof fn lemma_expiry_boundary(
    secret: Seq<u8>,
    token: Seq<char>,
    subject: Seq<char>,
    t0: int,
    l: int,
)
    requires
        signed_claims(secret, token) == Some((subject, t0, t0 + l)),
    ensures
        verify_outcome(secret, token, t0 + l - 1) == Some((subject, t0, t0 + l)),
        verify_outcome(secret, token, t0 + l + 1) is None,
{
}

} // verus!
