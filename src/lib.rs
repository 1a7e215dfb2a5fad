//! OAuth 2.0 device authorization flow: the protocol decisions, verified.
//!
//! The library builds the two requests of the flow, turns the provider's
//! replies into a grant or a token, and decides after each poll of the token
//! endpoint whether to wait and ask again or to stop. Sending requests,
//! decoding JSON bodies and sleeping are left to the caller, which hands each
//! observed reply back as a plain value.

pub mod config;
pub mod error;
pub mod grant;
pub mod poll;
