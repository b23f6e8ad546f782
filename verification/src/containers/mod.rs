//! The OCI distribution API: repositories, blob uploads and manifests.

pub mod complete;
pub mod error;
pub mod handler;
pub mod manifest;
pub mod mime;
pub mod name;
pub mod repo;
pub mod storage;
pub mod upload;
