//! The manifest endpoint of the Docker registry: which document a request
//! asks for.

use vstd::prelude::*;
use vstd::string::*;

use crate::containers::error::ErrorCode;
use crate::containers::name::valid_name;
use crate::docker::handler::ImageNamePath;
use crate::docker::mime::IMAGE_MANIFEST_V2;
use crate::docker::{validate_name, Name, NameView};
use crate::text::str_eq;

verus! {

/// The media type that a manifest request asks for, from the `Accept`
/// header as its debug text (quoted): an image manifest when there is no
/// header or it reads `"*/*"`, else the text itself.
pub open spec fn requested_media_type(accept: Option<Seq<char>>) -> Seq<char> {
    match accept {
        None => IMAGE_MANIFEST_V2@,
        Some(a) => if a == "\"*/*\""@ {
            IMAGE_MANIFEST_V2@
        } else {
            a
        },
    }
}

/// What a manifest request is answered with, before any lookup: the image
/// to look up, or an error code: `NameInvalid` for invalid coordinates,
/// `Unsupported` for a media type other than the image manifest.
pub open spec fn manifest_request_outcome(
    group: Seq<char>,
    name: Seq<char>,
    accept: Option<Seq<char>>,
) -> Result<NameView, ErrorCode> {
    if !valid_name(group, name) {
        Err(ErrorCode::NameInvalid)
    } else if requested_media_type(accept) != IMAGE_MANIFEST_V2@ {
        Err(ErrorCode::Unsupported)
    } else {
        Ok(NameView { group, name })
    }
}

/// What a manifest request is answered with, before any lookup.
pub fn manifest_request(path: &ImageNamePath, accept: Option<&str>) -> (r: Result<Name, ErrorCode>)
    ensures
        match manifest_request_outcome(path.group@, path.name@, accept.deep_view()) {
            Ok(n) => r matches Ok(x) && x@ == n,
            Err(c) => r == Err::<Name, ErrorCode>(c),
        },
{
    if !validate_name(path.group.as_str(), path.name.as_str()) {
        return Err(ErrorCode::NameInvalid);
    }
    let supported = match accept {
        None => true,
        Some(a) => str_eq(a, "\"*/*\"") || str_eq(a, IMAGE_MANIFEST_V2),
    };
    if !supported {
        return Err(ErrorCode::Unsupported);
    }
    Ok(Name::new(path.group.clone(), path.name.clone()))
}

/// The answer to a manifest request whose image has no stored manifest.
pub fn missing_manifest() -> (r: ErrorCode)
    ensures
        r == ErrorCode::ManifestUnknown,
{
    ErrorCode::ManifestUnknown
}

} // verus!
