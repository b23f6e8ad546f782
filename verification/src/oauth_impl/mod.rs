//! A fixed client and code, standing in for stored ones.

pub mod client;
pub mod code;
