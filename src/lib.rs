//! A small client for obtaining OAuth2 access tokens for Google Cloud.
//!
//! The client picks one of two credential sources (a service-account key file or the
//! ambient environment), builds the authentication manager that does the real work at
//! most once, and maps every failure to one of three local error kinds. The decisions
//! live here as a verified state machine; the asynchronous driver that performs the
//! file reads, environment discovery and token requests sits around it.

mod client;
mod error;
mod service_account;

pub use client::{Client, ClientView, Delegate, InitializationMethod, Source, Step, Action};
pub use error::{token_outcome, Error};
pub use service_account::{service_account_from_json};

