//! The HTTP face of the registry: its errors, guards, request extractors
//! and handlers, as far as they decide anything.

pub mod error;
pub mod extractor;
pub mod guard;
pub mod handler;
