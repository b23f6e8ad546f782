//! The manifest endpoint: which document a request asks for.

use vstd::prelude::*;
use vstd::string::*;

use crate::containers::error::ErrorCode;
use crate::containers::handler::NameParams;
use crate::containers::mime::{IMAGE_INDEX, IMAGE_MANIFEST};
use crate::containers::name::{is_valid_name, valid_name, Name, NameView};
use crate::text::str_eq;

verus! {

/// The kind of manifest document a request asks for.
#[derive(Debug, PartialEq, Eq, Structural)]
pub enum ManifestKind {
    /// An image index.
    Index,
    /// An image manifest.
    Image,
    /// A media type that the registry does not serve.
    Unsupported,
}

/// The manifest kind for an `Accept` header: a missing or non-text header
/// and `*/*` ask for an index.
pub open spec fn manifest_kind_for(accept: Option<Seq<char>>) -> ManifestKind {
    match accept {
        None => ManifestKind::Index,
        Some(a) => if a == "*/*"@ || a == IMAGE_INDEX@ {
            ManifestKind::Index
        } else if a == IMAGE_MANIFEST@ {
            ManifestKind::Image
        } else {
            ManifestKind::Unsupported
        },
    }
}

/// The manifest kind that an `Accept` header asks for.
pub fn manifest_kind(accept: Option<&str>) -> (r: ManifestKind)
    ensures
        r == manifest_kind_for(accept.deep_view()),
{
    match accept {
        None => ManifestKind::Index,
        Some(a) => {
            if str_eq(a, "*/*") || str_eq(a, IMAGE_INDEX) {
                ManifestKind::Index
            } else if str_eq(a, IMAGE_MANIFEST) {
                ManifestKind::Image
            } else {
                ManifestKind::Unsupported
            }
        },
    }
}

/// What a manifest request is answered with, before any lookup: the image
/// and the kind of document to look up, or an error code: `NameInvalid`
/// for invalid coordinates, `Unsupported` for a media type that the registry
/// does not serve.
pub fn manifest_request(path: NameParams, accept: Option<&str>) -> (r: Result<(Name, ManifestKind), ErrorCode>)
    ensures
        if !valid_name(path.group@, path.name@) {
            r == Err::<(Name, ManifestKind), ErrorCode>(ErrorCode::NameInvalid)
        } else if manifest_kind_for(accept.deep_view()) == ManifestKind::Unsupported {
            r == Err::<(Name, ManifestKind), ErrorCode>(ErrorCode::Unsupported)
        } else {
            r matches Ok((n, k)) && n@ == (NameView { group: path.group@, name: path.name@ })
                && k == manifest_kind_for(accept.deep_view())
        },
{
    if !is_valid_name(path.group.as_str(), path.name.as_str()) {
        return Err(ErrorCode::NameInvalid);
    }
    let kind = manifest_kind(accept);
    if kind == ManifestKind::Unsupported {
        return Err(ErrorCode::Unsupported);
    }
    Ok((Name::new(path.group, path.name), kind))
}

} // verus!
