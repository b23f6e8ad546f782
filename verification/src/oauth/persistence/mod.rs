//! How the authorization server's clients and codes are stored.

pub mod entity;
pub mod storage;
