//! The stored forms of clients and authorization codes.

pub mod auth_code;
pub mod client;
