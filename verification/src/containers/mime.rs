//! Media types of OCI image documents.

use vstd::prelude::*;

verus! {

/// An OCI image index.
pub const IMAGE_INDEX: &'static str = "application/vnd.oci.image.index.v1+json";

/// An OCI image manifest.
pub const IMAGE_MANIFEST: &'static str = "application/vnd.oci.image.manifest.v1+json";

/// An OCI image configuration.
pub const IMAGE_CONFIG: &'static str = "application/vnd.oci.image.config.v1+json";

/// An OCI image layer.
pub const IMAGE_LAYER: &'static str = "application/vnd.oci.image.layer.v1.tar+gzip";

} // verus!
