//! OCI image indexes and manifests (schema version 2).

use vstd::prelude::*;
use vstd::string::*;

use crate::containers::mime::{IMAGE_CONFIG, IMAGE_INDEX, IMAGE_LAYER, IMAGE_MANIFEST};
use crate::containers::name::{name_text, Name};
use crate::guid::Guid;

verus! {

/// The platform that a manifest runs on.
#[derive(Debug)]
pub struct Platform {
    pub architecture: String,
    pub os: String,
    pub os_version: Option<String>,
    pub os_features: Vec<String>,
    pub variant: Option<String>,
    pub features: Vec<String>,
}

/// A reference to a manifest from an index.
#[derive(Debug)]
pub struct ManifestObject {
    pub media_type: String,
    pub size: u64,
    pub digest: String,
    pub platform: Platform,
}

/// An index of the manifests of an image, one per platform.
#[derive(Debug)]
pub struct ImageIndex {
    pub schema_version: u8,
    pub media_type: String,
    pub manifests: Vec<ManifestObject>,
}

/// The configuration blob of an image manifest.
#[derive(Debug)]
pub struct ImageManifestConfig {
    pub media_type: String,
    pub size: u64,
    pub digest: String,
}

/// A layer of an image manifest.
#[derive(Debug)]
pub struct ImageManifestLayer {
    pub media_type: String,
    pub size: u64,
    pub digest: String,
    pub urls: Vec<String>,
}

/// The manifest of an image: its configuration and its layers.
#[derive(Debug)]
pub struct ImageManifest {
    pub schema_version: u8,
    pub media_type: String,
    pub config: ImageManifestConfig,
    pub layers: Vec<ImageManifestLayer>,
}

impl ImageIndex {
    /// The guid under which the index of an image is stored.
    pub fn build_guid(name: &Name) -> (r: Guid)
        ensures
            r@.partition == Some(IMAGE_INDEX@),
            r@.id == name_text(name@),
    {
        Guid::partitioned(IMAGE_INDEX, name.to_string().as_str())
    }

    /// An index of the given manifests.
    pub fn new(manifests: Vec<ManifestObject>) -> (r: ImageIndex)
        ensures
            r.schema_version == 2,
            r.media_type@ == IMAGE_INDEX@,
            r.manifests == manifests,
    {
        ImageIndex { schema_version: 2, media_type: String::from_str(IMAGE_INDEX), manifests }
    }
}

impl ManifestObject {
    /// A reference to an image manifest.
    pub fn new(size: u64, digest: String, platform: Platform) -> (r: ManifestObject)
        ensures
            r.media_type@ == IMAGE_MANIFEST@,
            r.size == size,
            r.digest == digest,
            r.platform == platform,
    {
        ManifestObject { media_type: String::from_str(IMAGE_MANIFEST), size, digest, platform }
    }
}

impl ImageManifest {
    /// The guid under which the manifest of an image is stored.
    pub fn build_guid(name: &Name) -> (r: Guid)
        ensures
            r@.partition == Some(IMAGE_MANIFEST@),
            r@.id == name_text(name@),
    {
        Guid::partitioned(IMAGE_MANIFEST, name.to_string().as_str())
    }

    /// A manifest with the given configuration and layers.
    pub fn new(config: ImageManifestConfig, layers: Vec<ImageManifestLayer>) -> (r: ImageManifest)
        ensures
            r.schema_version == 2,
            r.media_type@ == IMAGE_MANIFEST@,
            r.config == config,
            r.layers == layers,
    {
        ImageManifest { schema_version: 2, media_type: String::from_str(IMAGE_MANIFEST), config, layers }
    }
}

impl ImageManifestConfig {
    /// The configuration blob of the given size and digest.
    pub fn new(size: u64, digest: String) -> (r: ImageManifestConfig)
        ensures
            r.media_type@ == IMAGE_CONFIG@,
            r.size == size,
            r.digest == digest,
    {
        ImageManifestConfig { media_type: String::from_str(IMAGE_CONFIG), size, digest }
    }
}

impl ImageManifestLayer {
    /// A layer of the given size and digest, fetched from `urls`.
    pub fn new(size: u64, digest: String, urls: Vec<String>) -> (r: ImageManifestLayer)
        ensures
            r.media_type@ == IMAGE_LAYER@,
            r.size == size,
            r.digest == digest,
            r.urls == urls,
    {
        ImageManifestLayer { media_type: String::from_str(IMAGE_LAYER), size, digest, urls }
    }
}

} // verus!
