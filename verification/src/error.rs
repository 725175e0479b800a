use vstd::prelude::*;

verus! {

/// Every failure the session layer reports to its callers.
#[derive(Clone, Debug, PartialEq, Eq)]
pub enum AuthError {
    /// The token is malformed, carries a bad signature, or no token was sent.
    InvalidToken,
    /// The token is well signed but its expiry has passed.
    TokenExpired,
    /// The identity provider could not be reached, or its answer could not be read.
    ProviderUnavailable,
    /// The identity provider answered with a status outside 200..=299.
    ProviderRejected { status: u16, body: String },
    /// The identity provider knows no such user.
    NotFound,
    /// The caller is authenticated but lacks the admin capability.
    Forbidden,
    /// Some units of a CRM propagation failed; the job itself went through.
    PartialSyncFailure { failed: usize },
    /// A session token could not be produced.
    IssueFailed,
}

/// The HTTP status a handler answers with for each failure.
pub open spec fn status_of(e: AuthError) -> u16 {
    match e {
        AuthError::InvalidToken => 401,
        AuthError::TokenExpired => 401,
        AuthError::Forbidden => 403,
        AuthError::ProviderUnavailable => 502,
        AuthError::ProviderRejected { .. } => 502,
        AuthError::NotFound => 502,
        AuthError::PartialSyncFailure { .. } => 500,
        AuthError::IssueFailed => 500,
    }
}

impl AuthError {
    /// The HTTP status a handler answers with for this failure.
    pub fn status_code(&self) -> (code: u16)
        ensures
            code == status_of(*self),
    {
        match self {
            AuthError::InvalidToken => 401,
            AuthError::TokenExpired => 401,
            AuthError::Forbidden => 403,
            AuthError::ProviderUnavailable => 502,
            AuthError::ProviderRejected { .. } => 502,
            AuthError::NotFound => 502,
            AuthError::PartialSyncFailure { .. } => 500,
            AuthError::IssueFailed => 500,
        }
    }
}

} // verus!
