use enseada::containers::error::ErrorCode;
use enseada::docker::handler::manifest::{manifest_request, missing_manifest};
use enseada::docker::handler::{greeting, ImageNamePath};
use enseada::docker::manifest::resolver::CouchWrapper;
use enseada::docker::manifest::s2::{ImageManifest, ImageManifestConfig, ImageManifestLayer, ManifestList, ManifestObject, Platform};
use enseada::docker::mime::{FOREIGN_LAYER, IMAGE_MANIFEST_V2, IMAGE_V1, LAYER, MANIFEST_LIST_V2};
use enseada::docker::{validate_name, Name};
use enseada::guid::Guid;

#[test]
fn docker_names() {
    let n = Name::new("library".into(), "nginx".into());
    assert_eq!((n.group(), n.name()), ("library", "nginx"));
    assert!(validate_name("library", "nginx"));
    assert!(!validate_name("LIB", "nginx"));
}

#[test]
fn docker_document_guids() {
    let n = Name::new("g".into(), "n".into());
    assert_eq!(ManifestList::build_guid(&n).to_string(), "docker_list_v2:g:n");
    assert_eq!(ImageManifest::build_guid(&n).to_string(), "docker_image_v2:g:n");
}

#[test]
fn docker_documents() {
    let list = ManifestList::new(vec![]);
    assert_eq!((list.schema_version, list.media_type.as_str()), (2, MANIFEST_LIST_V2));
    let platform = Platform {
        architecture: "amd64".into(),
        os: "linux".into(),
        os_version: None,
        os_features: vec![],
        variant: None,
        features: vec![],
    };
    let obj = ManifestObject::new(7, "sha256:x".into(), platform);
    assert_eq!(obj.media_type, IMAGE_MANIFEST_V2);
    let cfg = ImageManifestConfig::new(3, "sha256:c".into());
    assert_eq!(cfg.media_type, IMAGE_V1);
    let img = ImageManifest::new(cfg, vec![]);
    assert_eq!(img.media_type, IMAGE_MANIFEST_V2);
    assert_eq!(ImageManifestLayer::new(true, 1, "d".into(), vec![]).media_type, FOREIGN_LAYER);
    assert_eq!(ImageManifestLayer::new(false, 1, "d".into(), vec![]).media_type, LAYER);
    let w = CouchWrapper::new(Guid::simple("x"), None, 5u32);
    assert_eq!(w.into_inner(), 5);
}

#[test]
fn docker_manifest_requests() {
    let p = ImageNamePath { group: "g".into(), name: "n".into() };
    assert_eq!(manifest_request(&p, None).unwrap().name(), "n");
    assert!(manifest_request(&p, Some("\"*/*\"")).is_ok());
    assert!(manifest_request(&p, Some(IMAGE_MANIFEST_V2)).is_ok());
    let quoted = format!("\"{}\"", IMAGE_MANIFEST_V2);
    assert_eq!(manifest_request(&p, Some(&quoted)).unwrap_err(), ErrorCode::Unsupported);
    let bad = ImageNamePath { group: "G".into(), name: "n".into() };
    assert_eq!(manifest_request(&bad, None).unwrap_err(), ErrorCode::NameInvalid);
    assert_eq!(missing_manifest(), ErrorCode::ManifestUnknown);
}

#[test]
fn docker_greeting() {
    let p = ImageNamePath { group: "g".into(), name: "n".into() };
    assert_eq!(greeting(&p), "hello from Docker image g/n!");
}
