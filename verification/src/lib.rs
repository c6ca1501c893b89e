//! Credential and session security core for a single-device controller.
//!
//! The library covers provisioning of the first administrator credential,
//! password hashing and verification, session-token issuance, validation and
//! idle expiry, durable persistence of credentials, and the authorization
//! gate that protected endpoints pass through.

pub mod auth;
pub mod clock;
pub mod credentials;
pub mod crypto;
pub mod firmware;
pub mod handlers;
pub mod hex;
pub mod persist;
pub mod query;
pub mod session;
pub mod state;
pub mod store;
pub mod text;
pub mod wifi;
