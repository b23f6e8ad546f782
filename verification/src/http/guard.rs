//! Routing by subdomain: a guard that admits requests whose host starts
//! with a given prefix.

use vstd::prelude::*;
use vstd::string::*;

use crate::text::{ends_with_char, join2, starts_with};

verus! {

/// The host part of a URI, as `http::Uri` reads it, if it has one.
pub uninterp spec fn uri_host(text: Seq<char>) -> Option<Seq<char>>;

/// Calls `str::parse::<http::Uri>` and `Uri::host`: the host of the text read
/// as a URI, or `None` when it is no URI or names no host. The contract
/// names the host and does not restate the URI grammar.
#[verifier::external_body]
fn host_of(text: &str) -> (r: Option<String>)
    ensures
        r.deep_view() == uri_host(text@),
{
    match text.parse::<http::Uri>() {
        Ok(uri) => match uri.host() {
            Some(host) => Some(String::from(host)),
            None => None,
        },
        Err(_) => None,
    }
}

/// A guard that admits the requests sent to hosts whose name starts with
/// its prefix, such as `"api."`.
#[derive(Debug)]
pub struct SubdomainGuard(String);

impl View for SubdomainGuard {
    type V = Seq<char>;

    closed spec fn view(&self) -> Seq<char> {
        self.0@
    }
}

/// A subdomain prefix as the guard holds it: ending with a dot.
pub open spec fn dotted(prefix: Seq<char>) -> Seq<char> {
    if prefix.len() > 0 && prefix.last() == '.' {
        prefix
    } else {
        prefix + "."@
    }
}

/// Whether a request for `host` (its `Host` header, else the host of its
/// URI) passes a guard with prefix `prefix`: the text must read as a URI
/// whose host starts with the prefix.
pub open spec fn admits(prefix: Seq<char>, host: Option<Seq<char>>) -> bool {
    match host {
        None => false,
        Some(h) => match uri_host(h) {
            None => false,
            Some(name) => prefix.len() <= name.len() && name.subrange(0, prefix.len() as int) == prefix,
        },
    }
}

impl SubdomainGuard {
    /// Whether a request for `host` passes the guard.
    pub fn check(&self, host: Option<&str>) -> (r: bool)
        ensures
            r == admits(self@, host.deep_view()),
    {
        match host {
            None => false,
            Some(h) => match host_of(h) {
                None => false,
                Some(name) => starts_with(name.as_str(), self.0.as_str()),
            },
        }
    }
}

/// The guard for a subdomain: the prefix, with a dot added when it does not
/// end with one.
pub fn subdomain(prefix: &str) -> (r: SubdomainGuard)
    ensures
        r@ == dotted(prefix@),
{
    if ends_with_char(prefix, '.') {
        SubdomainGuard(prefix.to_string())
    } else {
        proof {
            reveal_strlit(".");
        }
        SubdomainGuard(join2(prefix, "."))
    }
}

/// The prefix a guard holds ends with a dot, and making a subdomain guard of
/// it again changes nothing.
pub proof fn lemma_dotted_prefix(prefix: Seq<char>)
    ensures
        dotted(prefix).len() > 0,
        dotted(prefix).last() == '.',
        dotted(dotted(prefix)) == dotted(prefix),
{
    reveal_strlit(".");
}

/// A guard admits a request exactly when its host reads as a URI whose
/// host name begins with the guard's prefix; a request without a host is
/// never admitted.
pub proof fn lemma_guard_admits_prefix(prefix: Seq<char>, host: Seq<char>)
    ensures
        admits(prefix, Some(host)) <==> (uri_host(host) matches Some(name) && prefix.is_prefix_of(name)),
        !admits(prefix, None),
{
    if let Some(name) = uri_host(host) {
        if prefix.len() <= name.len() {
            assert(prefix.is_prefix_of(name) <==> name.subrange(0, prefix.len() as int) =~= prefix);
        }
    }
}

} // verus!
