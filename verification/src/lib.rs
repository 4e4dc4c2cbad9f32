//! Credential-and-token authorization layer for a trade-messaging API.
//!
//! Clients log in with a client identifier and a secret and receive a signed
//! bearer token that stays valid for three hours. Every protected request
//! passes the guard, which accepts the request only if it carries a token that
//! was signed with the process key and whose validity window holds the current
//! time.

pub mod api;
pub mod claims;
pub mod clock;
pub mod credentials;
pub mod error;
pub mod guard;
pub mod login;
pub mod token;
