//! Media types of Docker image documents (image manifest schema 2).

use vstd::prelude::*;

verus! {

/// A manifest list: the manifests of an image, one per platform.
pub const MANIFEST_LIST_V2: &'static str = "application/vnd.docker.distribution.manifest.list.v2+json";

/// An image manifest.
pub const IMAGE_MANIFEST_V2: &'static str = "application/vnd.docker.distribution.manifest.v2+json";

/// An image configuration.
pub const IMAGE_V1: &'static str = "application/vnd.docker.container.image.v1+json";

/// A layer, stored in the registry.
pub const LAYER: &'static str = "application/vnd.docker.image.rootfs.diff.tar.gzip";

/// A layer fetched from elsewhere.
pub const FOREIGN_LAYER: &'static str = "application/vnd.docker.image.rootfs.foreign.diff.tar.gzip";

} // verus!
