use vstd::prelude::*;
use crate::error::AuthError;
use crate::types::auth::{Claims, ClaimsView};

verus! {

/// How long a session token stays valid: five weeks, in seconds.
pub const SESSION_SECONDS: usize = 3600 * 24 * 7 * 5;

/// What the token library read out of a token whose signature it accepted:
/// each claim is present only if the payload holds it with the right type.
#[derive(Clone, Debug, PartialEq, Eq)]
pub struct RawClaims {
    pub sub: Option<String>,
    pub exp: Option<u64>,
    pub iat: Option<u64>,
}

/// The claims of a decoded payload as plain values: subject, expiry, issue
/// instant.
pub type DecodedView = (Option<Seq<char>>, Option<u64>, Option<u64>);

impl View for RawClaims {
    type V = DecodedView;

    open spec fn view(&self) -> DecodedView {
        (
            match self.sub {
                Some(s) => Some(s@),
                None => None,
            },
            self.exp,
            self.iat,
        )
    }
}

/// The error of `jsonwebtoken`. Nothing is read off it: every error of the
/// token library is answered in the same way.
#[verifier::external_type_specification]
#[verifier::external_body]
pub struct ExTokenLibraryError(jsonwebtoken::errors::Error);

/// The compact HS256 token that `jsonwebtoken::encode` makes of the claims
/// `sub`, `exp`, `iat` under `secret`, or `None` where it reports an error.
pub uninterp spec fn encoded_token(sub: Seq<char>, exp: u64, iat: u64, secret: Seq<char>) -> Option<
    Seq<char>,
>;

/// The claims that `jsonwebtoken::decode` reads from `token` after it has
/// accepted the token's shape and its HS256 signature under `secret`, or
/// `None` where it reports an error. Expiry plays no part in it.
pub uninterp spec fn decoded_claims(token: Seq<char>, secret: Seq<char>) -> Option<DecodedView>;

/// Calls `jsonwebtoken::encode` with the default header (HS256) on the claims
/// object `{"sub", "exp", "iat"}` and the HMAC key `secret`.
///
/// Trusted: the result is a function of the four arguments, and a token that
/// was made under `secret` decodes under `secret` to the claims it was made
/// of. The encoder signs `header.payload` with HMAC-SHA256 and the decoder
/// recomputes that signature over the same text before it parses the payload.
#[verifier::external_body]
fn encode_claims(sub: &str, exp: u64, iat: u64, secret: &str) -> (made: Result<
    String,
    jsonwebtoken::errors::Error,
>)
    ensures
        match made {
            Ok(token) => encoded_token(sub@, exp, iat, secret@) == Some(token@)
                && decoded_claims(token@, secret@) == Some((Some(sub@), Some(exp), Some(iat))),
            Err(_) => encoded_token(sub@, exp, iat, secret@) is None,
        },
{
    let mut claims = serde_json::Map::new();
    claims.insert("sub".to_string(), serde_json::Value::from(sub));
    claims.insert("exp".to_string(), serde_json::Value::from(exp));
    claims.insert("iat".to_string(), serde_json::Value::from(iat));
    let key = jsonwebtoken::EncodingKey::from_secret(secret.as_bytes());
    jsonwebtoken::encode(&jsonwebtoken::Header::default(), &claims, &key)
}

/// Calls `jsonwebtoken::decode` for HS256 with the HMAC key `secret`, with
/// its own expiry check switched off and no claim required, and hands out the
/// claims `sub`, `exp` and `iat` of the payload.
///
/// Trusted: the result is a function of the two arguments. With the expiry
/// check off the decoder never reads the clock.
#[verifier::external_body]
fn decode_claims(token: &str, secret: &str) -> (read: Result<RawClaims, jsonwebtoken::errors::Error>)
    ensures
        match read {
            Ok(raw) => decoded_claims(token@, secret@) == Some(raw@),
            Err(_) => decoded_claims(token@, secret@) is None,
        },
{
    let mut validation = jsonwebtoken::Validation::default();
    validation.validate_exp = false;
    validation.required_spec_claims.clear();
    let key = jsonwebtoken::DecodingKey::from_secret(secret.as_bytes());
    let data = jsonwebtoken::decode::<serde_json::Value>(token, &key, &validation)?;
    Ok(RawClaims {
        sub: data.claims.get("sub").and_then(serde_json::Value::as_str).map(str::to_owned),
        exp: data.claims.get("exp").and_then(serde_json::Value::as_u64),
        iat: data.claims.get("iat").and_then(serde_json::Value::as_u64),
    })
}

/// Reads the system clock through `chrono::Utc::now` and hands out its
/// `timestamp`: whole seconds since the Unix epoch.
///
/// Trusted: the reading is not negative. `Utc::now` takes the time elapsed
/// since the epoch from the system clock and panics where the clock stands
/// before the epoch, so no negative reading is ever returned.
#[verifier::external_body]
pub(crate) fn unix_now() -> (seconds: i64)
    ensures
        seconds >= 0,
{
    chrono::Utc::now().timestamp()
}

/// The claims of a token issued to `subject` at `now`.
pub open spec fn session_claims(subject: Seq<char>, now: u64) -> ClaimsView
    recommends
        now + SESSION_SECONDS <= usize::MAX,
{
    ClaimsView { sub: subject, exp: (now + SESSION_SECONDS) as usize, iat: now as usize }
}

/// The token issued to `subject` at `now` under `secret`, if there is one:
/// none when the expiry instant does not fit the machine word or the token
/// library reports an error.
pub open spec fn issued_token(subject: Seq<char>, now: u64, secret: Seq<char>) -> Option<
    Seq<char>,
> {
    if now + SESSION_SECONDS > usize::MAX {
        None
    } else {
        encoded_token(subject, (now + SESSION_SECONDS) as u64, now, secret)
    }
}

/// What verification makes of a decoded payload at `now`: the claims when all
/// three are present, fit the machine word and the expiry lies after `now`;
/// `TokenExpired` when only the last fails; `InvalidToken` otherwise.
pub open spec fn claims_outcome(decoded: Option<DecodedView>, now: u64) -> Result<
    ClaimsView,
    AuthError,
> {
    match decoded {
        Some((Some(sub), Some(exp), Some(iat))) => if exp > usize::MAX || iat > usize::MAX {
            Err(AuthError::InvalidToken)
        } else if exp > now {
            Ok(ClaimsView { sub, exp: exp as usize, iat: iat as usize })
        } else {
            Err(AuthError::TokenExpired)
        },
        _ => Err(AuthError::InvalidToken),
    }
}

/// What verifying `token` at `now` under `secret` yields.
pub open spec fn verified(token: Seq<char>, now: u64, secret: Seq<char>) -> Result<
    ClaimsView,
    AuthError,
> {
    claims_outcome(decoded_claims(token, secret), now)
}

/// A verification result with the claims as plain values.
pub open spec fn outcome_view(outcome: Result<Claims, AuthError>) -> Result<ClaimsView, AuthError> {
    match outcome {
        Ok(claims) => Ok(claims@),
        Err(e) => Err(e),
    }
}

/// Issues a session token for `subject` as of `now`: the claims are the
/// subject, `now` as the issue instant and `now` plus five weeks as the
/// expiry, signed under `secret`.
///
/// A token that comes out verifies under the same secret to exactly these
/// claims at every instant before its expiry, and is expired from then on.
pub fn issue_at(subject: &str, now: u64, secret: &str) -> (issued: Result<String, AuthError>)
    ensures
        match issued {
            Ok(token) => {
                &&& issued_token(subject@, now, secret@) == Some(token@)
                &&& forall|at: u64| #[trigger]
                    verified(token@, at, secret@) == if at < now + SESSION_SECONDS {
                        Ok::<ClaimsView, AuthError>(session_claims(subject@, now))
                    } else {
                        Err::<ClaimsView, AuthError>(AuthError::TokenExpired)
                    }
            },
            Err(e) => e == AuthError::IssueFailed && issued_token(subject@, now, secret@) is None,
        },
{
    if now > usize::MAX as u64 - SESSION_SECONDS as u64 {
        return Err(AuthError::IssueFailed);
    }
    let expiry: u64 = now + SESSION_SECONDS as u64;
    let made = match encode_claims(subject, expiry, now, secret) {
        Ok(token) => Some(token),
        Err(_) => None,
    };
    issue_outcome(made)
}

/// Turns what the token library made of the claims into the result of
/// issuing: the token where there is one, and `IssueFailed` where the
/// library reported an error.
pub fn issue_outcome(made: Option<String>) -> (issued: Result<String, AuthError>)
    ensures
        match made {
            Some(token) => issued == Ok::<String, AuthError>(token),
            None => issued == Err::<String, AuthError>(AuthError::IssueFailed),
        },
{
    match made {
        Some(token) => Ok(token),
        None => Err(AuthError::IssueFailed),
    }
}

/// Turns what the token library read from a token into the verdict at `now`.
/// `decoded` is `None` when the library rejected the token's shape or
/// signature.
pub fn check_claims(decoded: Option<RawClaims>, now: u64) -> (outcome: Result<Claims, AuthError>)
    ensures
        outcome_view(outcome) == claims_outcome(
            match decoded {
                Some(raw) => Some(raw@),
                None => None,
            },
            now,
        ),
{
    let raw = match decoded {
        Some(raw) => raw,
        None => { return Err(AuthError::InvalidToken); },
    };
    match (raw.sub, raw.exp, raw.iat) {
        (Some(sub), Some(exp), Some(iat)) => {
            if exp > usize::MAX as u64 || iat > usize::MAX as u64 {
                Err(AuthError::InvalidToken)
            } else if exp > now {
                Ok(Claims { sub, exp: exp as usize, iat: iat as usize })
            } else {
                Err(AuthError::TokenExpired)
            }
        },
        _ => Err(AuthError::InvalidToken),
    }
}

/// Verifies `token` as of `now`: the signature must be ours and the expiry
/// must lie strictly after `now`.
pub fn verify_at(token: &str, now: u64, secret: &str) -> (outcome: Result<Claims, AuthError>)
    ensures
        outcome_view(outcome) == verified(token@, now, secret@),
{
    let decoded = match decode_claims(token, secret) {
        Ok(raw) => Some(raw),
        Err(_) => None,
    };
    check_claims(decoded, now)
}

/// Issues a session token for `subject` as of the system clock.
pub fn issue(subject: &str, secret: &str) -> (issued: Result<String, AuthError>)
    ensures
        match issued {
            Ok(token) => exists|now: u64| #[trigger]
                issued_token(subject@, now, secret@) == Some(token@),
            Err(e) => e == AuthError::IssueFailed,
        },
{
    let now: u64 = unix_now() as u64;
    issue_at(subject, now, secret)
}

/// Verifies `token` as of the system clock.
pub fn verify(token: &str, secret: &str) -> (outcome: Result<Claims, AuthError>)
    ensures
        exists|now: u64| #[trigger] verified(token@, now, secret@) == outcome_view(outcome),
{
    let now: u64 = unix_now() as u64;
    verify_at(token, now, secret)
}

} // verus!
