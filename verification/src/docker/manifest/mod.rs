//! Docker manifests and how they are stored.

pub mod resolver;
pub mod s2;
