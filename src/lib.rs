//! Keeps an OAuth2 client-credentials bearer token fresh and hands it to
//! outgoing requests.
//!
//! The credential lifecycle is a state machine driven by repeated readiness
//! probes. A state holds at most one fetch, a probe starts one only from a
//! state that holds none, and the previous token stays usable while a refresh
//! runs.
pub mod auth;
pub mod client;
pub mod error;
mod outside;
pub mod service;
pub mod token;

pub use auth::{KeycloakAuthInner, Readiness, State, TokenOperation, TokenSource};
pub use client::TokenResponse;
pub use error::KeycloakError;
pub use token::Token;
