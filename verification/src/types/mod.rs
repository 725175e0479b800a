pub mod auth;

pub use auth::{
    AuthCallbackQuery, Claims, ClaimsView, GetUserResponse, ListMetadata, Timestamp,
    WorkOSAuthRequest, WorkOSAuthResponse, WorkOSCreateUserWebhookPayload, WorkOSUser,
    WorkOSUserView,
};
