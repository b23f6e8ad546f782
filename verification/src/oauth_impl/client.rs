//! A fixed client: `client`, with secret `secret`, allowed the `profile`
//! scope and to redirect to `http://example.com`.

use vstd::prelude::*;
use vstd::string::*;

use crate::links::{parse_url, url_parse};
use crate::oauth::scope::Scope;
use crate::text::dedup;

verus! {

/// The fixed client.
#[derive(Debug)]
pub struct OAuthClient {}

impl OAuthClient {
    /// The id of the client: `client`.
    pub fn client_id(&self) -> (r: String)
        ensures
            r@ == "client"@,
    {
        String::from_str("client")
    }

    /// The secret of the client: `secret`.
    pub fn client_secret(&self) -> (r: Option<String>)
        ensures
            r.deep_view() == Some("secret"@),
    {
        Some(String::from_str("secret"))
    }

    /// The scope the client is allowed: `profile`.
    pub fn allowed_scopes(&self) -> (r: Scope)
        ensures
            r@ == seq!["profile"@],
    {
        let words = vec![String::from_str("profile")];
        proof {
            let ws = words.deep_view();
            assert(ws =~= seq!["profile"@]);
            assert(ws.drop_last() =~= Seq::<Seq<char>>::empty());
            assert(dedup(ws.drop_last()) =~= Seq::<Seq<char>>::empty());
            assert(dedup(ws) =~= seq!["profile"@]);
        }
        Scope::from_words(words)
    }

    /// The redirect URIs of the client: `http://example.com` as the URL
    /// parser writes it; none if it would not parse.
    pub fn allowed_redirect_uris(&self) -> (r: Vec<String>)
        ensures
            match url_parse("http://example.com"@) {
                Ok(u) => r.deep_view() == seq![u],
                Err(_) => r.deep_view() == Seq::<Seq<char>>::empty(),
            },
    {
        let mut uris: Vec<String> = Vec::new();
        match parse_url("http://example.com") {
            Ok(u) => {
                uris.push(u);
                assert(uris.deep_view() =~= seq![uris[0]@]);
            },
            Err(_) => {
                assert(uris.deep_view() =~= Seq::<Seq<char>>::empty());
            },
        }
        uris
    }
}

} // verus!
