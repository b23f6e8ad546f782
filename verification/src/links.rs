//! URLs, parsed and written by the `url` crate.

use vstd::prelude::*;

verus! {

/// What `url::Url::parse` gives for a text: the serialization of the parsed
/// URL (`Url`'s `Display`), or the description of the parse error
/// (`ParseError`'s `Display`).
pub uninterp spec fn url_parse(input: Seq<char>) -> Result<Seq<char>, Seq<char>>;

/// Calls `url::Url::parse`. Claimed: the outcome is a function of the input,
/// named `url_parse`; a parsed URL is handed back as its serialization (two
/// `Url`s are equal exactly when their serializations are), an error as its
/// description.
#[verifier::external_body]
pub(crate) fn parse_url(input: &str) -> (r: Result<String, String>)
    ensures
        match r {
            Ok(s) => url_parse(input@) == Ok::<Seq<char>, Seq<char>>(s@),
            Err(m) => url_parse(input@) == Err::<Seq<char>, Seq<char>>(m@),
        },
{
    match url::Url::parse(input) {
        Ok(u) => Ok(u.to_string()),
        Err(e) => Err(e.to_string()),
    }
}

} // verus!
