use vstd::prelude::*;

verus! {

/// An instant as the identity provider reports it: whole seconds since the
/// Unix epoch and the nanoseconds within that second.
#[derive(Clone, Copy, Debug, PartialEq, Eq)]
pub struct Timestamp {
    pub secs: i64,
    pub nanos: u32,
}

/// Query string of the provider's redirect back to us.
#[derive(Clone, Debug, PartialEq, Eq)]
pub struct AuthCallbackQuery {
    pub code: String,
}

/// A user profile as the identity provider holds it.
#[derive(Clone, Debug, PartialEq, Eq)]
pub struct WorkOSUser {
    pub object: String,
    pub id: String,
    pub email: String,
    pub first_name: Option<String>,
    pub last_name: Option<String>,
    pub email_verified: bool,
    pub profile_picture_url: Option<String>,
    pub created_at: Timestamp,
    pub updated_at: Timestamp,
}

/// What the synchronisation reads of a profile.
pub struct WorkOSUserView {
    pub id: Seq<char>,
    pub email: Seq<char>,
    pub first_name: Option<Seq<char>>,
    pub last_name: Option<Seq<char>>,
}

/// The text of an optional string.
pub open spec fn text_of(s: Option<String>) -> Option<Seq<char>> {
    match s {
        Some(t) => Some(t@),
        None => None,
    }
}

impl View for WorkOSUser {
    type V = WorkOSUserView;

    open spec fn view(&self) -> WorkOSUserView {
        WorkOSUserView {
            id: self.id@,
            email: self.email@,
            first_name: text_of(self.first_name),
            last_name: text_of(self.last_name),
        }
    }
}

impl DeepView for WorkOSUser {
    type V = WorkOSUserView;

    open spec fn deep_view(&self) -> WorkOSUserView {
        self@
    }
}

/// Body of the code-exchange request.
#[derive(Clone, Debug, PartialEq, Eq)]
pub struct WorkOSAuthRequest {
    pub client_id: String,
    pub client_secret: String,
    pub grant_type: String,
    pub code: String,
    pub ip_address: Option<String>,
    pub user_agent: Option<String>,
    pub invitation_code: Option<String>,
}

/// Answer to a successful code exchange.
#[derive(Clone, Debug, PartialEq, Eq)]
pub struct WorkOSAuthResponse {
    pub user: WorkOSUser,
    pub organization_id: Option<String>,
}

/// Payload of the provider's user-created webhook.
#[derive(Clone, Debug, PartialEq, Eq)]
pub struct WorkOSCreateUserWebhookPayload {
    pub id: String,
    pub event: String,
    pub data: WorkOSUser,
    pub created_at: Timestamp,
}

/// The claims a session token carries: the subject, and the issue and expiry
/// instants in seconds since the Unix epoch.
#[derive(Clone, Debug, PartialEq, Eq)]
pub struct Claims {
    pub sub: String,
    pub exp: usize,
    pub iat: usize,
}

/// Claims with the subject as text.
pub struct ClaimsView {
    pub sub: Seq<char>,
    pub exp: usize,
    pub iat: usize,
}

impl View for Claims {
    type V = ClaimsView;

    open spec fn view(&self) -> ClaimsView {
        ClaimsView { sub: self.sub@, exp: self.exp, iat: self.iat }
    }
}

/// Cursors of a page of the directory listing.
#[derive(Clone, Debug, PartialEq, Eq)]
pub struct ListMetadata {
    pub before: Option<String>,
    pub after: Option<String>,
}

/// One page of the directory listing.
#[derive(Clone, Debug, PartialEq, Eq)]
pub struct GetUserResponse {
    pub data: Vec<WorkOSUser>,
    pub list_metadata: ListMetadata,
}

} // verus!
