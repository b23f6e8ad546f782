//! Reading credentials out of the `Authorization` header, and the session
//! that an access token grants.

use actix_web::http::header::HeaderValue;
use actix_web_httpauth::headers::authorization::{Basic, Bearer, Scheme};
use vstd::prelude::*;
use vstd::string::*;

use crate::http::error::{ApiError, ApiErrorView};
use crate::oauth::error::Error as OAuthError;
use crate::oauth::handler::BasicAuth;
use crate::oauth::session::Session;
use crate::oauth::token::AccessToken;
use crate::text::str_eq;

verus! {

/// Whether a character may stand in a header value that reads as text:
/// visible ASCII, space or tab.
pub open spec fn header_char(c: char) -> bool {
    c == '\t' || (' ' <= c && c <= '~')
}

/// The token of a bearer `Authorization` header: the text after
/// `"Bearer "`, when the header is text of at least eight characters.
pub open spec fn bearer_parse(header: Seq<char>) -> Option<Seq<char>> {
    if (forall|i: int| 0 <= i < header.len() ==> header_char(#[trigger] header[i])) && header.len() >= 8
        && header.subrange(0, 7) == "Bearer "@ {
        Some(header.subrange(7, header.len() as int))
    } else {
        None
    }
}

/// The user name and password of a basic `Authorization` header, as
/// `actix_web_httpauth` decodes them.
pub uninterp spec fn basic_parse(header: Seq<char>) -> Option<(Seq<char>, Option<Seq<char>>)>;

/// Calls `actix_web_httpauth`'s `Bearer::parse` on the header: its token.
/// The contract states what the crate's source does: the header must read
/// as text, be at least eight bytes long and start with the scheme
/// `Bearer` and a space; the token is the rest.
#[verifier::external_body]
fn parse_bearer(header: &str) -> (r: Option<String>)
    ensures
        r.deep_view() == bearer_parse(header@),
{
    let value = match HeaderValue::from_str(header) {
        Ok(v) => v,
        Err(_) => return None,
    };
    match Bearer::parse(&value) {
        Ok(bearer) => Some(String::from(bearer.token())),
        Err(_) => None,
    }
}

/// Calls `actix_web_httpauth`'s `Basic::parse` on the header: the user name
/// and password that it decodes (base64 of `user:password`; an empty
/// password counts as none). The contract names the result and does not
/// restate the decoding.
#[verifier::external_body]
fn parse_basic(header: &str) -> (r: Option<(String, Option<String>)>)
    ensures
        match r {
            Some((user, password)) => basic_parse(header@) == Some((user@, password.deep_view())),
            None => basic_parse(header@) is None,
        },
{
    let value = match HeaderValue::from_str(header) {
        Ok(v) => v,
        Err(_) => return None,
    };
    match Basic::parse(&value) {
        Ok(basic) => Some((
            String::from(basic.user_id()),
            match basic.password() {
                Some(p) => Some(String::from(p)),
                None => None,
            },
        )),
        Err(_) => None,
    }
}

/// The user name under which an access token may be sent by basic
/// authentication, the token being the password.
pub const TOKEN_USER: &'static str = "x-oauth-token";

/// The access token that an `Authorization` header carries: a bearer token,
/// else the password of basic credentials whose user is `x-oauth-token`.
pub open spec fn header_token(header: Option<Seq<char>>) -> Option<Seq<char>> {
    match header {
        None => None,
        Some(h) => match bearer_parse(h) {
            Some(t) => Some(t),
            None => match basic_parse(h) {
                Some((user, password)) => if user == TOKEN_USER@ {
                    password
                } else {
                    None
                },
                None => None,
            },
        },
    }
}

/// The access token that an `Authorization` header carries, if any.
pub fn token_from_header(header: Option<&str>) -> (r: Option<String>)
    ensures
        r.deep_view() == header_token(header.deep_view()),
{
    match header {
        None => None,
        Some(h) => match parse_bearer(h) {
            Some(t) => Some(t),
            None => match parse_basic(h) {
                Some((user, password)) => {
                    if str_eq(user.as_str(), TOKEN_USER) {
                        password
                    } else {
                        None
                    }
                },
                None => None,
            },
        },
    }
}

/// The basic credentials that an `Authorization` header carries, if any.
pub fn basic_auth(header: Option<&str>) -> (r: Option<BasicAuth>)
    ensures
        match header {
            None => r is None,
            Some(h) => match basic_parse(h@) {
                None => r is None,
                Some((user, password)) => r matches Some(a) && a@.username == user && a@.password
                    == password,
            },
        },
{
    match header {
        None => None,
        Some(h) => match parse_basic(h) {
            Some((user, password)) => Some(BasicAuth::new(user, password)),
            None => None,
        },
    }
}

/// Why an access token grants no session.
#[derive(Debug, PartialEq, Eq, Structural)]
pub enum TokenRefusal {
    /// No token was sent, or none is stored under it.
    Unknown,
    /// The token has expired; it is to be revoked.
    Expired,
}

impl TokenRefusal {
    /// The answer to a request whose token grants no session.
    pub fn to_api_error(&self) -> (r: ApiError)
        ensures
            r@ == ApiErrorView::Unauthorized("unauthorized"@),
    {
        ApiError::unauthorized()
    }
}

/// The session that the access token looked up for a request grants at
/// time `now`: none when the lookup failed, or when the token has expired.
pub fn token_session(token: Result<AccessToken, OAuthError>, now: i128) -> (r: Result<Session, TokenRefusal>)
    ensures
        match token {
            Err(_) => r == Err::<Session, TokenRefusal>(TokenRefusal::Unknown),
            Ok(t) => if t@.expiration < now {
                r == Err::<Session, TokenRefusal>(TokenRefusal::Expired)
            } else {
                r matches Ok(s) && s@ == t@.session
            },
        },
{
    match token {
        Err(_) => Err(TokenRefusal::Unknown),
        Ok(t) => {
            if t.is_expired_at(now) {
                Err(TokenRefusal::Expired)
            } else {
                Ok(t.session().clone())
            }
        },
    }
}

/// The scope that the session of a request grants.
pub fn session_scope(session: &Session) -> (r: crate::oauth::scope::Scope)
    ensures
        r@ == session@.scope,
{
    session.scope().clone()
}

} // verus!
