use std::sync::Arc;
use vstd::prelude::*;
use crate::config::AppConfig;
use crate::error::AuthError;
use crate::token::{unix_now, verified, verify_at};

verus! {

/// The identity a request runs under, taken from its verified session token.
#[derive(Clone, Debug, PartialEq, Eq)]
pub struct AuthenticatedUser {
    pub user_id: String,
}

/// Whether `id` is one of the operator accounts.
pub open spec fn is_admin_id(id: Seq<char>) -> bool {
    ||| id == "user_01HRBJ8FVP3JT28DEWXN6JPKF5"@
    ||| id == "user_01HY5EW9Z5XVE34GZXKH4NC2Y1"@
    ||| id == "user_01J12R88378H1Z5R3JCGEPJ6RA"@
}

/// The token that an `Authorization` header of the form `Bearer <token>`
/// carries.
pub open spec fn bearer_of(header: Seq<char>) -> Option<Seq<char>> {
    if header.len() >= 7 && header.subrange(0, 7) == "Bearer "@ {
        Some(header.subrange(7, header.len() as int))
    } else {
        None
    }
}

/// The identity that a request with the given `Authorization` header runs
/// under at `now`, or the reason why it is turned away.
pub open spec fn authenticated(authorization: Option<Seq<char>>, now: u64, secret: Seq<char>) -> Result<
    Seq<char>,
    AuthError,
> {
    match authorization {
        None => Err(AuthError::InvalidToken),
        Some(header) => match bearer_of(header) {
            None => Err(AuthError::InvalidToken),
            Some(token) => match verified(token, now, secret) {
                Ok(claims) => Ok(claims.sub),
                Err(e) => Err(e),
            },
        },
    }
}

/// The text of a header that may be absent.
pub open spec fn header_text(header: Option<&str>) -> Option<Seq<char>> {
    match header {
        Some(text) => Some(text@),
        None => None,
    }
}

/// The outcome of the authentication with the identity as text.
pub open spec fn identity_view(outcome: Result<AuthenticatedUser, AuthError>) -> Result<
    Seq<char>,
    AuthError,
> {
    match outcome {
        Ok(user) => Ok(user.user_id@),
        Err(e) => Err(e),
    }
}

impl AuthenticatedUser {
    /// Whether this identity holds the admin capability: its id is one of the
    /// operator accounts.
    pub fn is_admin(&self) -> (admin: bool)
        ensures
            admin == is_admin_id(self.user_id@),
    {
        let first = String::from_str("user_01HRBJ8FVP3JT28DEWXN6JPKF5");
        let second = String::from_str("user_01HY5EW9Z5XVE34GZXKH4NC2Y1");
        let third = String::from_str("user_01J12R88378H1Z5R3JCGEPJ6RA");
        self.user_id == first || self.user_id == second || self.user_id == third
    }

    /// Hands a handler the identity that was attached to the request, or
    /// turns the request away where none is attached.
    pub fn from_request(attached: Option<&AuthenticatedUser>) -> (outcome: Result<
        AuthenticatedUser,
        AuthError,
    >)
        ensures
            match attached {
                Some(user) => outcome == Ok::<AuthenticatedUser, AuthError>(*user),
                None => outcome == Err::<AuthenticatedUser, AuthError>(AuthError::InvalidToken),
            },
    {
        match attached {
            Some(user) => Ok(AuthenticatedUser { user_id: user.user_id.clone() }),
            None => Err(AuthError::InvalidToken),
        }
    }

    /// Takes an authenticated request on to authorised: lets an admin
    /// through and refuses everyone else.
    pub fn require_admin(&self) -> (outcome: Result<(), AuthError>)
        ensures
            outcome == if is_admin_id(self.user_id@) {
                Ok::<(), AuthError>(())
            } else {
                Err::<(), AuthError>(AuthError::Forbidden)
            },
    {
        if self.is_admin() {
            Ok(())
        } else {
            Err(AuthError::Forbidden)
        }
    }
}

/// Every operator account has an id of 31 characters.
pub proof fn lemma_admin_id_length(id: Seq<char>)
    ensures
        is_admin_id(id) ==> id.len() == 31,
{
    reveal_strlit("user_01HRBJ8FVP3JT28DEWXN6JPKF5");
    reveal_strlit("user_01HY5EW9Z5XVE34GZXKH4NC2Y1");
    reveal_strlit("user_01J12R88378H1Z5R3JCGEPJ6RA");
    assert("user_01HRBJ8FVP3JT28DEWXN6JPKF5"@.len() == 31);
    assert("user_01HY5EW9Z5XVE34GZXKH4NC2Y1"@.len() == 31);
    assert("user_01J12R88378H1Z5R3JCGEPJ6RA"@.len() == 31);
}

/// An identity without an id is no admin.
pub proof fn lemma_empty_id_is_not_admin()
    ensures
        !is_admin_id(Seq::<char>::empty()),
{
    lemma_admin_id_length(Seq::<char>::empty());
}

/// Reads the token out of an `Authorization` header of the form
/// `Bearer <token>`.
pub fn bearer_token(header: &str) -> (token: Option<String>)
    ensures
        match token {
            Some(t) => bearer_of(header@) == Some(t@),
            None => bearer_of(header@) is None,
        },
{
    let length: usize = header.unicode_len();
    if length < 7 {
        return None;
    }
    let scheme = String::from_str(header.substring_char(0, 7));
    let expected = String::from_str("Bearer ");
    if scheme == expected {
        Some(String::from_str(header.substring_char(7, length)))
    } else {
        None
    }
}

/// The authentication as it is installed: it holds the configuration that the signing
/// secret is taken from.
pub struct AuthenticationMiddleware {
    pub app_config: Arc<AppConfig>,
}

/// The authentication in front of one downstream service.
pub struct AuthenticationMiddlewareService<S> {
    pub service: S,
    pub app_config: Arc<AppConfig>,
}

impl AuthenticationMiddleware {
    /// Puts the authentication in front of `service`.
    pub fn new_transform<S>(&self, service: S) -> (guard: AuthenticationMiddlewareService<S>)
        ensures
            guard.service == service,
            guard.app_config == self.app_config,
    {
        AuthenticationMiddlewareService { service, app_config: self.app_config.clone() }
    }
}

impl<S> AuthenticationMiddlewareService<S> {
    /// Resolves the identity of a request from its `Authorization` header as
    /// of `now`: a request with a valid token goes from unauthenticated to
    /// authenticated, every other request is turned away. Each request is
    /// judged by its token alone; nothing is remembered between requests.
    pub fn authenticate_at(&self, authorization: Option<&str>, now: u64) -> (outcome: Result<
        AuthenticatedUser,
        AuthError,
    >)
        ensures
            identity_view(outcome) == authenticated(
                header_text(authorization),
                now,
                self.app_config.jwt_secret@,
            ),
    {
        let header = match authorization {
            Some(header) => header,
            None => { return Err(AuthError::InvalidToken); },
        };
        let token = match bearer_token(header) {
            Some(token) => token,
            None => { return Err(AuthError::InvalidToken); },
        };
        match verify_at(token.as_str(), now, self.app_config.jwt_secret.as_str()) {
            Ok(claims) => Ok(AuthenticatedUser { user_id: claims.sub }),
            Err(e) => Err(e),
        }
    }

    /// Resolves the identity of a request from its `Authorization` header
    /// against the system clock.
    pub fn call(&self, authorization: Option<&str>) -> (outcome: Result<AuthenticatedUser, AuthError>)
        ensures
            exists|now: u64| #[trigger]
                authenticated(
                    header_text(authorization),
                    now,
                    self.app_config.jwt_secret@,
                ) == identity_view(outcome),
    {
        let now: u64 = unix_now() as u64;
        self.authenticate_at(authorization, now)
    }
}

} // verus!
