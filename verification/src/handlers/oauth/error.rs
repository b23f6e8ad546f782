//! How malformed authorization requests are answered: sent back to the
//! client's redirect URI with an `invalid_request` error when the request
//! names one that parses, else refused as a bad request.

use vstd::prelude::*;
use vstd::string::*;

use crate::links::{parse_url, url_parse};
use crate::oauth::error::{Error as OAuthError, ErrorKind, ErrorView};
use crate::text::{contains_text, has_infix, str_eq};

verus! {

/// The key-value pairs that `serde_urlencoded` reads from a query string,
/// when it reads it.
pub uninterp spec fn query_pairs(query: Seq<char>) -> Option<Seq<(Seq<char>, Seq<char>)>>;

/// The abstract value of a list of text pairs.
pub open spec fn pairs_view(v: Seq<(String, String)>) -> Seq<(Seq<char>, Seq<char>)> {
    v.map_values(|p: (String, String)| (p.0@, p.1@))
}

/// Calls `serde_urlencoded::from_str::<Vec<(String, String)>>`: the decoded
/// pairs of a query string, in order. The contract names the decoding and
/// does not restate it.
#[verifier::external_body]
fn decode_query(query: &str) -> (r: Option<Vec<(String, String)>>)
    ensures
        match r {
            Some(v) => query_pairs(query@) == Some(pairs_view(v@)),
            None => query_pairs(query@) is None,
        },
{
    match serde_urlencoded::from_str::<Vec<(String, String)>>(query) {
        Ok(pairs) => Some(pairs),
        Err(_) => None,
    }
}

/// The value of the first pair whose key is `redirect_uri`.
pub open spec fn first_redirect_uri(pairs: Seq<(Seq<char>, Seq<char>)>) -> Option<Seq<char>>
    decreases pairs.len(),
{
    if pairs.len() == 0 {
        None
    } else if pairs[0].0 == "redirect_uri"@ {
        Some(pairs[0].1)
    } else {
        first_redirect_uri(pairs.drop_first())
    }
}

/// The answer to a malformed request.
#[derive(Debug)]
pub enum QueryErrorReply {
    /// Send the user back to the client's redirect URI with this error.
    RedirectBack { redirect_uri: String, error: OAuthError },
    /// Refuse the request with this body; as plain text when `plain`.
    BadRequest { body: String, plain: bool },
}

/// The abstract value of a [`QueryErrorReply`].
pub enum QueryErrorReplyView {
    RedirectBack { redirect_uri: Seq<char>, error: ErrorView },
    BadRequest { body: Seq<char>, plain: bool },
}

impl View for QueryErrorReply {
    type V = QueryErrorReplyView;

    open spec fn view(&self) -> QueryErrorReplyView {
        match self {
            QueryErrorReply::RedirectBack { redirect_uri, error } => QueryErrorReplyView::RedirectBack {
                redirect_uri: redirect_uri@,
                error: error@,
            },
            QueryErrorReply::BadRequest { body, plain } => QueryErrorReplyView::BadRequest {
                body: body@,
                plain: *plain,
            },
        }
    }
}

/// How a malformed query is answered. `detail` is the description of the
/// failure; `deserialize_message` is, when the query's fields could not be
/// read, the description of that failure. Such a failure about the
/// redirect URI, or a query without a redirect URI that parses, is refused;
/// else the user is sent back to the redirect URI with an `InvalidRequest`
/// error that describes the failure. Other failures are refused with their
/// description, as plain text.
pub open spec fn query_error_outcome(
    detail: Seq<char>,
    deserialize_message: Option<Seq<char>>,
    query: Seq<char>,
) -> QueryErrorReplyView {
    match deserialize_message {
        None => QueryErrorReplyView::BadRequest { body: detail, plain: true },
        Some(message) => if has_infix(detail, "redirect_uri"@) {
            QueryErrorReplyView::BadRequest { body: "invalid redirect_uri parameter"@, plain: false }
        } else {
            let uri = match query_pairs(query) {
                Some(pairs) => first_redirect_uri(pairs),
                None => first_redirect_uri(Seq::empty()),
            };
            match uri {
                Some(u) => match url_parse(u) {
                    Ok(target) => QueryErrorReplyView::RedirectBack {
                        redirect_uri: target,
                        error: ErrorView { kind: ErrorKind::InvalidRequest, description: message },
                    },
                    Err(_) => QueryErrorReplyView::BadRequest {
                        body: "invalid redirect_uri parameter"@,
                        plain: false,
                    },
                },
                None => QueryErrorReplyView::BadRequest { body: "invalid redirect_uri parameter"@, plain: false },
            }
        },
    }
}

/// The first redirect URI among decoded pairs.
fn find_redirect_uri(pairs: &Vec<(String, String)>) -> (r: Option<String>)
    ensures
        r.deep_view() == first_redirect_uri(pairs_view(pairs@)),
{
    let n = pairs.len();
    let mut i: usize = 0;
    assert(pairs_view(pairs@).skip(0) =~= pairs_view(pairs@));
    while i < n
        invariant
            n == pairs@.len(),
            i <= n,
            first_redirect_uri(pairs_view(pairs@)) == first_redirect_uri(pairs_view(pairs@).skip(i as int)),
        decreases n - i,
    {
        let ghost rest = pairs_view(pairs@).skip(i as int);
        assert(rest[0] == (pairs@[i as int].0@, pairs@[i as int].1@));
        if str_eq(pairs[i].0.as_str(), "redirect_uri") {
            return Some(pairs[i].1.clone());
        }
        assert(rest.drop_first() =~= pairs_view(pairs@).skip(i + 1));
        i = i + 1;
    }
    assert(pairs_view(pairs@).skip(n as int) =~= Seq::<(Seq<char>, Seq<char>)>::empty());
    None
}

/// How a malformed query is answered.
pub fn query_error_reply(detail: &str, deserialize_message: Option<&str>, query: &str) -> (r: QueryErrorReply)
    ensures
        r@ == query_error_outcome(detail@, deserialize_message.deep_view(), query@),
{
    proof {
        reveal_strlit("redirect_uri");
    }
    let message = match deserialize_message {
        None => {
            return QueryErrorReply::BadRequest { body: detail.to_string(), plain: true };
        },
        Some(m) => m,
    };
    if contains_text(detail, "redirect_uri") {
        return QueryErrorReply::BadRequest {
            body: String::from_str("invalid redirect_uri parameter"),
            plain: false,
        };
    }
    let uri = match decode_query(query) {
        Some(pairs) => find_redirect_uri(&pairs),
        None => None,
    };
    match uri {
        Some(u) => match parse_url(u.as_str()) {
            Ok(target) => QueryErrorReply::RedirectBack {
                redirect_uri: target,
                error: OAuthError::new(ErrorKind::InvalidRequest, message.to_string()),
            },
            Err(_) => QueryErrorReply::BadRequest {
                body: String::from_str("invalid redirect_uri parameter"),
                plain: false,
            },
        },
        None => QueryErrorReply::BadRequest { body: String::from_str("invalid redirect_uri parameter"), plain: false },
    }
}

/// The answer to a malformed form.
#[derive(Debug)]
pub enum FormErrorReply {
    /// Refuse it with this OAuth error, as JSON.
    Json(OAuthError),
    /// Refuse it with this description, as plain text.
    Text(String),
}

/// How a malformed form is answered: a form that could not be parsed is
/// refused with an `InvalidRequest` error; any other failure with its
/// description.
pub fn form_error_reply(detail: &str, parse_failure: bool) -> (r: FormErrorReply)
    ensures
        if parse_failure {
            r matches FormErrorReply::Json(e) && e@ == (ErrorView {
                kind: ErrorKind::InvalidRequest,
                description: "request data is invalid or is missing a required parameter"@,
            })
        } else {
            r matches FormErrorReply::Text(t) && t@ == detail@
        },
{
    if parse_failure {
        FormErrorReply::Json(
            OAuthError::new(
                ErrorKind::InvalidRequest,
                String::from_str("request data is invalid or is missing a required parameter"),
            ),
        )
    } else {
        FormErrorReply::Text(detail.to_string())
    }
}

} // verus!
