//! Image manifests and indexes of the OCI image specification.

pub mod oci_v1;
pub mod resolver;
