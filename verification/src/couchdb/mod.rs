//! The document store: its errors, its answers, and what the library
//! decides about the requests it sends to it.

pub mod client;
pub mod db;
pub mod error;
pub mod responses;
pub mod status;
