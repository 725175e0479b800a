use vstd::prelude::*;
use crate::error::AuthError;
use crate::types::auth::WorkOSAuthRequest;

verus! {

/// The two kinds of request that are sent to the identity provider.
#[derive(Clone, Copy, Debug, PartialEq, Eq)]
pub enum HttpMethod {
    Get,
    Post,
}

/// A request to the identity provider, ready to be sent: the method, the
/// address, the value of the `Authorization` header and, for the code
/// exchange, the JSON body.
#[derive(Clone, Debug, PartialEq, Eq)]
pub struct ProviderRequest {
    pub method: HttpMethod,
    pub url: String,
    pub authorization: String,
    pub body: Option<WorkOSAuthRequest>,
}

/// What came back for a request to the identity provider.
#[derive(Clone, Debug, PartialEq, Eq)]
pub enum ProviderReply<T> {
    /// No response arrived: the request could not be sent, or the connection
    /// broke or timed out.
    Unreachable,
    /// A response arrived: its status, its body as text, and the body read
    /// as JSON of the expected shape where it has that shape.
    Response { status: u16, body: String, decoded: Option<T> },
}

/// Whether a status stands for success: 200 up to 299.
pub open spec fn is_success(status: u16) -> bool {
    200 <= status <= 299
}

/// What a reply amounts to: the decoded value of a successful response,
/// `ProviderRejected` with status and body for any other status, and
/// `ProviderUnavailable` where no response arrived or a successful one could
/// not be read.
pub open spec fn provider_outcome<T>(reply: ProviderReply<T>) -> Result<T, AuthError> {
    match reply {
        ProviderReply::Unreachable => Err(AuthError::ProviderUnavailable),
        ProviderReply::Response { status, body, decoded } => if is_success(status) {
            match decoded {
                Some(value) => Ok(value),
                None => Err(AuthError::ProviderUnavailable),
            }
        } else {
            Err(AuthError::ProviderRejected { status, body })
        },
    }
}

/// The value of the `Authorization` header that carries `key`.
pub open spec fn bearer_header(key: Seq<char>) -> Seq<char> {
    "Bearer "@ + key
}

/// A request without a body, authorised with the API key `key`.
pub open spec fn is_plain_request(
    request: ProviderRequest,
    method: HttpMethod,
    url: Seq<char>,
    key: Seq<char>,
) -> bool {
    &&& request.method == method
    &&& request.url@ == url
    &&& request.authorization@ == bearer_header(key)
    &&& request.body is None
}

/// Whether `status` stands for success.
pub fn status_is_success(status: u16) -> (success: bool)
    ensures
        success == is_success(status),
{
    200 <= status && status <= 299
}

/// Settles a reply: see [`provider_outcome`].
pub fn settle<T>(reply: ProviderReply<T>) -> (outcome: Result<T, AuthError>)
    ensures
        outcome == provider_outcome(reply),
{
    match reply {
        ProviderReply::Unreachable => Err(AuthError::ProviderUnavailable),
        ProviderReply::Response { status, body, decoded } => {
            if status_is_success(status) {
                match decoded {
                    Some(value) => Ok(value),
                    None => Err(AuthError::ProviderUnavailable),
                }
            } else {
                Err(AuthError::ProviderRejected { status, body })
            }
        },
    }
}

/// Builds a `GET` request to `url`, authorised with the API key `key`.
pub fn get_request(url: String, key: &str) -> (request: ProviderRequest)
    ensures
        is_plain_request(request, HttpMethod::Get, url@, key@),
{
    ProviderRequest {
        method: HttpMethod::Get,
        url,
        authorization: String::from_str("Bearer ").concat(key),
        body: None,
    }
}

} // verus!
