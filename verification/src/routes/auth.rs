use std::sync::Arc;
use vstd::prelude::*;
use crate::config::AppConfig;
use crate::error::AuthError;
use crate::middleware::auth::AuthenticatedUser;
use crate::provider::{
    bearer_header, get_request, is_plain_request, provider_outcome, settle, HttpMethod,
    ProviderReply, ProviderRequest,
};
use crate::token::{issue, issue_at, issued_token, unix_now};
use crate::types::auth::{
    AuthCallbackQuery, GetUserResponse, WorkOSAuthRequest, WorkOSAuthResponse, WorkOSUser,
};

verus! {

/// Address of the provider's hosted login page.
pub open spec fn login_address() -> Seq<char> {
    "https://thriving-fig-93-staging.authkit.app/"@
}

/// Address of the provider's hosted sign-up page.
pub open spec fn signup_address() -> Seq<char> {
    "https://authkit.i.inc/sign-up"@
}

/// Address under which the provider answers for the user `user_id`.
pub open spec fn user_by_id_address(user_id: Seq<char>) -> Seq<char> {
    "https://api.workos.com/user_management/users/"@ + user_id
}

/// Address under which the provider lists the users with the given email.
pub open spec fn user_by_email_address(email: Seq<char>) -> Seq<char> {
    "https://api.workos.com/user_management/users/?email="@ + email
}

/// Address of the provider's code exchange.
pub open spec fn authenticate_address() -> Seq<char> {
    "https://api.workos.com/user_management/authenticate"@
}

/// Address of a page of the directory listing: the first page without a
/// cursor, every later page with the cursor that the page before it gave.
pub open spec fn users_page_address(cursor: Option<Seq<char>>) -> Seq<char> {
    match cursor {
        None => "https://api.workos.com/user_management/users/"@,
        Some(after) => "https://api.workos.com/user_management/users/?after="@ + after,
    }
}

/// Where the desktop app is sent with its fresh token.
pub open spec fn callback_address(token: Seq<char>) -> Seq<char> {
    "iinc-ghost://auth_callback?token="@ + token
}

/// The body of the code exchange for `code` under the given credentials.
pub open spec fn is_exchange_body(
    body: WorkOSAuthRequest,
    code: Seq<char>,
    client_id: Seq<char>,
    key: Seq<char>,
) -> bool {
    &&& body.client_id@ == client_id
    &&& body.client_secret@ == key
    &&& body.grant_type@ == "authorization_code"@
    &&& body.code@ == code
    &&& body.ip_address is None
    &&& body.user_agent is None
    &&& body.invitation_code is None
}

/// The first match of a lookup by email, or `NotFound` where the provider's
/// list is empty.
pub open spec fn first_match(outcome: Result<GetUserResponse, AuthError>) -> Result<
    WorkOSUser,
    AuthError,
> {
    match outcome {
        Ok(page) => if page.data@.len() == 0 {
            Err(AuthError::NotFound)
        } else {
            Ok(page.data@[0])
        },
        Err(e) => Err(e),
    }
}

/// The redirect for a login: the provider's hosted login page.
pub fn login() -> (address: String)
    ensures
        address@ == login_address(),
{
    String::from_str("https://thriving-fig-93-staging.authkit.app/")
}

/// The redirect for a sign-up: the provider's hosted sign-up page.
pub fn signup() -> (address: String)
    ensures
        address@ == signup_address(),
{
    String::from_str("https://authkit.i.inc/sign-up")
}

/// The request that looks a user up by id.
pub fn user_id_to_user_request(user_id: &str, app_config: &AppConfig) -> (request: ProviderRequest)
    ensures
        is_plain_request(
            request,
            HttpMethod::Get,
            user_by_id_address(user_id@),
            app_config.workos_api_key@,
        ),
{
    let url = String::from_str("https://api.workos.com/user_management/users/").concat(user_id);
    get_request(url, app_config.workos_api_key.as_str())
}

/// Settles the lookup of a user by id.
pub fn user_id_to_user(reply: ProviderReply<WorkOSUser>) -> (outcome: Result<WorkOSUser, AuthError>)
    ensures
        outcome == provider_outcome(reply),
{
    settle(reply)
}

/// The request that looks a user up by email.
pub fn user_email_to_user_request(user_email: &str, app_config: &AppConfig) -> (request:
    ProviderRequest)
    ensures
        is_plain_request(
            request,
            HttpMethod::Get,
            user_by_email_address(user_email@),
            app_config.workos_api_key@,
        ),
{
    let url = String::from_str("https://api.workos.com/user_management/users/?email=").concat(
        user_email,
    );
    get_request(url, app_config.workos_api_key.as_str())
}

/// Settles the lookup of a user by email: the provider answers with a list,
/// of which the first entry is the user; an empty list means there is none.
pub fn user_email_to_user(reply: ProviderReply<GetUserResponse>) -> (outcome: Result<
    WorkOSUser,
    AuthError,
>)
    ensures
        outcome == first_match(provider_outcome(reply)),
{
    match settle(reply) {
        Ok(page) => {
            let mut users = page.data;
            if users.len() == 0 {
                Err(AuthError::NotFound)
            } else {
                Ok(users.swap_remove(0))
            }
        },
        Err(e) => Err(e),
    }
}

/// The request that exchanges an authorization code for the user behind it.
pub fn exchange_code_for_user_request(code: &str, app_config: &AppConfig) -> (request:
    ProviderRequest)
    ensures
        request.method == HttpMethod::Post,
        request.url@ == authenticate_address(),
        request.authorization@ == bearer_header(app_config.workos_api_key@),
        request.body matches Some(body) && is_exchange_body(
            body,
            code@,
            app_config.workos_client_id@,
            app_config.workos_api_key@,
        ),
{
    ProviderRequest {
        method: HttpMethod::Post,
        url: String::from_str("https://api.workos.com/user_management/authenticate"),
        authorization: String::from_str("Bearer ").concat(app_config.workos_api_key.as_str()),
        body: Some(
            WorkOSAuthRequest {
                client_id: app_config.workos_client_id.clone(),
                client_secret: app_config.workos_api_key.clone(),
                grant_type: String::from_str("authorization_code"),
                code: String::from_str(code),
                ip_address: None,
                user_agent: None,
                invitation_code: None,
            },
        ),
    }
}

/// Settles the code exchange.
pub fn exchange_code_for_user(reply: ProviderReply<WorkOSAuthResponse>) -> (outcome: Result<
    WorkOSAuthResponse,
    AuthError,
>)
    ensures
        outcome == provider_outcome(reply),
{
    settle(reply)
}

/// Signs a session token for `user_info` as of the system clock. The token
/// expires five weeks after it was issued.
pub fn sign_jwt(user_info: &WorkOSUser, app_config: Arc<AppConfig>) -> (issued: Result<
    String,
    AuthError,
>)
    ensures
        match issued {
            Ok(token) => exists|now: u64| #[trigger]
                issued_token(user_info.id@, now, app_config.jwt_secret@) == Some(token@),
            Err(e) => e == AuthError::IssueFailed,
        },
{
    issue(user_info.id.as_str(), app_config.jwt_secret.as_str())
}

/// A result that carries text, with the text as a sequence of characters.
pub open spec fn text_outcome(outcome: Result<String, AuthError>) -> Result<Seq<char>, AuthError> {
    match outcome {
        Ok(text) => Ok(text@),
        Err(e) => Err(e),
    }
}

/// The token issued to `subject` at `now`, or `IssueFailed`.
pub open spec fn token_outcome(subject: Seq<char>, now: u64, secret: Seq<char>) -> Result<
    Seq<char>,
    AuthError,
> {
    match issued_token(subject, now, secret) {
        Some(token) => Ok(token),
        None => Err(AuthError::IssueFailed),
    }
}

/// Where the login callback ends at `now`: at the redirect that carries a
/// fresh token for the user behind the code, or at the failure of the
/// exchange or of the signing.
pub open spec fn callback_outcome(
    reply: ProviderReply<WorkOSAuthResponse>,
    now: u64,
    secret: Seq<char>,
) -> Result<Seq<char>, AuthError> {
    match provider_outcome(reply) {
        Ok(auth) => match token_outcome(auth.user.id@, now, secret) {
            Ok(token) => Ok(callback_address(token)),
            Err(e) => Err(e),
        },
        Err(e) => Err(e),
    }
}

/// What a refresh yields at `now`: a fresh token for the user that the
/// provider answered with, or the failure of the lookup or of the signing.
pub open spec fn refresh_outcome(reply: ProviderReply<WorkOSUser>, now: u64, secret: Seq<char>) -> Result<
    Seq<char>,
    AuthError,
> {
    match provider_outcome(reply) {
        Ok(user) => token_outcome(user.id@, now, secret),
        Err(e) => Err(e),
    }
}

/// First half of the login callback: the exchange of the code that the
/// provider's redirect carries.
pub fn auth_callback_request(info: &AuthCallbackQuery, app_config: &AppConfig) -> (request:
    ProviderRequest)
    ensures
        request.method == HttpMethod::Post,
        request.url@ == authenticate_address(),
        request.authorization@ == bearer_header(app_config.workos_api_key@),
        request.body matches Some(body) && is_exchange_body(
            body,
            info.code@,
            app_config.workos_client_id@,
            app_config.workos_api_key@,
        ),
{
    exchange_code_for_user_request(info.code.as_str(), app_config)
}

/// Second half of the login callback as of `now`: signs a token for the user
/// that the exchange gave and builds the redirect into the desktop app.
pub fn auth_callback_at(
    reply: ProviderReply<WorkOSAuthResponse>,
    now: u64,
    app_config: Arc<AppConfig>,
) -> (redirect: Result<String, AuthError>)
    ensures
        text_outcome(redirect) == callback_outcome(reply, now, app_config.jwt_secret@),
{
    let auth = match exchange_code_for_user(reply) {
        Ok(auth) => auth,
        Err(e) => { return Err(e); },
    };
    match issue_at(auth.user.id.as_str(), now, app_config.jwt_secret.as_str()) {
        Ok(token) => Ok(String::from_str("iinc-ghost://auth_callback?token=").concat(token.as_str())),
        Err(e) => Err(e),
    }
}

/// Second half of the login callback, as of the system clock.
pub fn auth_callback(reply: ProviderReply<WorkOSAuthResponse>, app_config: Arc<AppConfig>) -> (redirect:
    Result<String, AuthError>)
    ensures
        exists|now: u64| #[trigger]
            callback_outcome(reply, now, app_config.jwt_secret@) == text_outcome(redirect),
{
    let now: u64 = unix_now() as u64;
    auth_callback_at(reply, now, app_config)
}

/// First half of a refresh: the lookup of the authenticated user.
pub fn refresh_token_request(authenticated_user: &AuthenticatedUser, app_config: &AppConfig) -> (request:
    ProviderRequest)
    ensures
        is_plain_request(
            request,
            HttpMethod::Get,
            user_by_id_address(authenticated_user.user_id@),
            app_config.workos_api_key@,
        ),
{
    user_id_to_user_request(authenticated_user.user_id.as_str(), app_config)
}

/// Second half of a refresh as of `now`: a new token for the same user with a
/// new window of full length. Nothing of the old token is carried over.
pub fn refresh_token_at(reply: ProviderReply<WorkOSUser>, now: u64, app_config: Arc<AppConfig>) -> (token:
    Result<String, AuthError>)
    ensures
        text_outcome(token) == refresh_outcome(reply, now, app_config.jwt_secret@),
{
    let user = match user_id_to_user(reply) {
        Ok(user) => user,
        Err(e) => { return Err(e); },
    };
    issue_at(user.id.as_str(), now, app_config.jwt_secret.as_str())
}

/// Second half of a refresh, as of the system clock.
pub fn refresh_token(reply: ProviderReply<WorkOSUser>, app_config: Arc<AppConfig>) -> (token: Result<
    String,
    AuthError,
>)
    ensures
        exists|now: u64| #[trigger]
            refresh_outcome(reply, now, app_config.jwt_secret@) == text_outcome(token),
{
    let now: u64 = unix_now() as u64;
    refresh_token_at(reply, now, app_config)
}

/// First half of the profile lookup for the authenticated user.
pub fn get_user_request(authenticated_user: &AuthenticatedUser, app_config: &AppConfig) -> (request:
    ProviderRequest)
    ensures
        is_plain_request(
            request,
            HttpMethod::Get,
            user_by_id_address(authenticated_user.user_id@),
            app_config.workos_api_key@,
        ),
{
    user_id_to_user_request(authenticated_user.user_id.as_str(), app_config)
}

/// Second half of the profile lookup: the profile that the provider holds.
pub fn get_user(reply: ProviderReply<WorkOSUser>) -> (outcome: Result<WorkOSUser, AuthError>)
    ensures
        outcome == provider_outcome(reply),
{
    user_id_to_user(reply)
}

/// The users gathered so far while the directory is listed page by page.
#[derive(Clone, Debug, PartialEq, Eq)]
pub struct DirectoryWalk {
    pub users: Vec<WorkOSUser>,
}

/// What to do next while the directory is listed.
#[derive(Clone, Debug, PartialEq, Eq)]
pub enum WalkStep {
    /// Send `request` and come back with the reply.
    Fetch { walk: DirectoryWalk, request: ProviderRequest },
    /// The last page is in: these are all users, in the provider's order.
    Finished { users: Vec<WorkOSUser> },
    /// A page could not be had; what was gathered is dropped.
    Failed { error: AuthError },
}

/// The request for the page of the listing that follows `cursor`.
pub fn users_page_request(cursor: Option<&str>, app_config: &AppConfig) -> (request: ProviderRequest)
    ensures
        is_plain_request(
            request,
            HttpMethod::Get,
            users_page_address(
                match cursor {
                    Some(after) => Some(after@),
                    None => None,
                },
            ),
            app_config.workos_api_key@,
        ),
{
    let url = match cursor {
        None => String::from_str("https://api.workos.com/user_management/users/"),
        Some(after) => String::from_str(
            "https://api.workos.com/user_management/users/?after=",
        ).concat(after),
    };
    get_request(url, app_config.workos_api_key.as_str())
}

/// Starts a listing of the whole directory: nothing is gathered yet and the
/// first page is asked for. Every listing starts from scratch.
pub fn list_all_users(app_config: &AppConfig) -> (step: WalkStep)
    ensures
        step matches WalkStep::Fetch { walk, request } && walk.users@.len() == 0
            && is_plain_request(
            request,
            HttpMethod::Get,
            users_page_address(None),
            app_config.workos_api_key@,
        ),
{
    WalkStep::Fetch {
        walk: DirectoryWalk { users: Vec::new() },
        request: users_page_request(None, app_config),
    }
}

/// Takes in the reply for the page that was asked for last. The users of
/// the page are appended to those gathered. Where the page names a cursor,
/// the page after it is asked for; where it names none, the listing is
/// complete. Pages are asked for one after the other, never side by side.
pub fn list_all_users_next(
    walk: DirectoryWalk,
    reply: ProviderReply<GetUserResponse>,
    app_config: &AppConfig,
) -> (step: WalkStep)
    ensures
        match provider_outcome(reply) {
            Err(e) => step == (WalkStep::Failed { error: e }),
            Ok(page) => match page.list_metadata.after {
                Some(after) => step matches WalkStep::Fetch { walk: next, request }
                    && next.users@ == walk.users@ + page.data@ && is_plain_request(
                    request,
                    HttpMethod::Get,
                    users_page_address(Some(after@)),
                    app_config.workos_api_key@,
                ),
                None => step matches WalkStep::Finished { users } && users@ == walk.users@
                    + page.data@,
            },
        },
{
    let page = match settle(reply) {
        Ok(page) => page,
        Err(e) => { return WalkStep::Failed { error: e }; },
    };
    let mut users = walk.users;
    let mut data = page.data;
    users.append(&mut data);
    match page.list_metadata.after {
        Some(after) => WalkStep::Fetch {
            walk: DirectoryWalk { users },
            request: users_page_request(Some(after.as_str()), app_config),
        },
        None => WalkStep::Finished { users },
    }
}

} // verus!
