pub mod auth;
pub mod logging;
