//! The OAuth 2.0 authorization server.

pub mod client;
pub mod code;
pub mod error;
pub mod handler;
pub mod scope;
pub mod session;
pub mod token;
pub mod request;
pub mod response;
pub mod persistence;
