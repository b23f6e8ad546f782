//! Docker image manifests, schema 2: manifest lists and image manifests.

use vstd::prelude::*;
use vstd::string::*;

use crate::docker::mime::{FOREIGN_LAYER, IMAGE_MANIFEST_V2, IMAGE_V1, LAYER, MANIFEST_LIST_V2};
use crate::docker::{Name, NameView};
use crate::guid::Guid;
use crate::text::join3;

verus! {

/// The key of an image within a partition: `group:name`.
pub open spec fn image_key(n: NameView) -> Seq<char> {
    n.group + ":"@ + n.name
}

/// The manifests of an image, one per platform.
#[derive(Debug)]
pub struct ManifestList {
    pub schema_version: u8,
    pub media_type: String,
    pub manifests: Vec<ManifestObject>,
}

/// A reference to a manifest from a list.
#[derive(Debug)]
pub struct ManifestObject {
    pub media_type: String,
    pub size: u64,
    pub digest: String,
    pub platform: Platform,
}

/// The platform that a manifest runs on.
#[derive(Debug)]
pub struct Platform {
    pub architecture: String,
    pub os: String,
    pub os_version: Option<String>,
    pub os_features: Vec<String>,
    pub variant: Option<String>,
    pub features: Vec<String>,
}

/// The manifest of an image: its configuration and its layers.
#[derive(Debug)]
pub struct ImageManifest {
    pub schema_version: u8,
    pub media_type: String,
    pub config: ImageManifestConfig,
    pub layers: Vec<ImageManifestLayer>,
}

/// The configuration blob of an image manifest.
#[derive(Debug)]
pub struct ImageManifestConfig {
    pub media_type: String,
    pub size: u64,
    pub digest: String,
}

/// A layer of an image manifest.
#[derive(Debug)]
pub struct ImageManifestLayer {
    pub media_type: String,
    pub size: u64,
    pub digest: String,
    pub urls: Vec<String>,
}

/// The key of an image, as text.
fn image_key_text(name: &Name) -> (r: String)
    ensures
        r@ == image_key(name@),
{
    join3(name.group(), ":", name.name())
}

impl ManifestList {
    /// The guid under which the manifest list of an image is stored:
    /// `docker_list_v2:group:name`.
    pub fn build_guid(name: &Name) -> (r: Guid)
        ensures
            r@.partition == Some("docker_list_v2"@),
            r@.id == image_key(name@),
    {
        Guid::partitioned("docker_list_v2", image_key_text(name).as_str())
    }

    /// A list of the given manifests.
    pub fn new(manifests: Vec<ManifestObject>) -> (r: ManifestList)
        ensures
            r.schema_version == 2,
            r.media_type@ == MANIFEST_LIST_V2@,
            r.manifests == manifests,
    {
        ManifestList { schema_version: 2, media_type: String::from_str(MANIFEST_LIST_V2), manifests }
    }
}

impl ManifestObject {
    /// A reference to an image manifest.
    pub fn new(size: u64, digest: String, platform: Platform) -> (r: ManifestObject)
        ensures
            r.media_type@ == IMAGE_MANIFEST_V2@,
            r.size == size,
            r.digest == digest,
            r.platform == platform,
    {
        ManifestObject { media_type: String::from_str(IMAGE_MANIFEST_V2), size, digest, platform }
    }
}

impl ImageManifest {
    /// The guid under which the manifest of an image is stored:
    /// `docker_image_v2:group:name`.
    pub fn build_guid(name: &Name) -> (r: Guid)
        ensures
            r@.partition == Some("docker_image_v2"@),
            r@.id == image_key(name@),
    {
        Guid::partitioned("docker_image_v2", image_key_text(name).as_str())
    }

    /// A manifest with the given configuration and layers.
    pub fn new(config: ImageManifestConfig, layers: Vec<ImageManifestLayer>) -> (r: ImageManifest)
        ensures
            r.schema_version == 2,
            r.media_type@ == IMAGE_MANIFEST_V2@,
            r.config == config,
            r.layers == layers,
    {
        ImageManifest { schema_version: 2, media_type: String::from_str(IMAGE_MANIFEST_V2), config, layers }
    }
}

impl ImageManifestConfig {
    /// The configuration blob of the given size and digest.
    pub fn new(size: u64, digest: String) -> (r: ImageManifestConfig)
        ensures
            r.media_type@ == IMAGE_V1@,
            r.size == size,
            r.digest == digest,
    {
        ImageManifestConfig { media_type: String::from_str(IMAGE_V1), size, digest }
    }
}

impl ImageManifestLayer {
    /// A layer of the given size and digest: a foreign layer, fetched from
    /// `urls`, when `remote`, else one stored in the registry.
    pub fn new(remote: bool, size: u64, digest: String, urls: Vec<String>) -> (r: ImageManifestLayer)
        ensures
            r.media_type@ == (if remote {
                FOREIGN_LAYER@
            } else {
                LAYER@
            }),
            r.size == size,
            r.digest == digest,
            r.urls == urls,
    {
        let media_type = if remote {
            String::from_str(FOREIGN_LAYER)
        } else {
            String::from_str(LAYER)
        };
        ImageManifestLayer { media_type, size, digest, urls }
    }
}

} // verus!
