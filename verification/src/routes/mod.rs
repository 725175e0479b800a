pub mod auth;
pub mod devents;
pub mod recordings;
