//! Session layer of the echo backend: signed session tokens, the identity
//! provider's code exchange and directory listing, the authentication of each
//! request, and the bulk synchronisation of the directory into local user
//! records and the CRM.
//!
//! Everything here is computation on plain values. Network calls and
//! persistence are performed by the caller: for each exchange with the
//! identity provider or the CRM there is a function that says what to send
//! and one that takes in what came back. Where the time matters there is a
//! function that takes the instant as an argument, and beside it one that
//! reads the system clock and hands the reading to the first.

pub mod config;
pub mod error;
pub mod middleware;
pub mod models;
pub mod provider;
pub mod routes;
pub mod store;
pub mod sync;
pub mod token;
pub mod types;
