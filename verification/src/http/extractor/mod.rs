//! What the handlers read out of a request's headers.

pub mod session;
pub mod user;
