//! The decisions of the authorization server: which clients, codes, tokens
//! and secrets a request is granted with, and what it is answered.
//!
//! Looking up stored clients, codes and tokens, signing secrets and checking
//! passwords happen outside this module; the validation of a token request
//! is a state machine that asks for them one at a time.

use vstd::prelude::*;
use vstd::string::*;

use crate::clock::{current_time, nanos_per_second, seconds_left, time_bound};
use crate::links::{parse_url, url_parse};
use crate::oauth::client::{Client, ClientKind, ClientView};
use crate::oauth::code::{expiration_in_range, expiry, AuthorizationCode, AuthorizationCodeView};
use crate::oauth::error::{Error, ErrorKind, ErrorView};
use crate::oauth::request::{AuthorizationRequest, TokenRequest};
use crate::oauth::response::{AuthorizationResponse, TokenResponse, TokenType};
use crate::oauth::scope::{scope_covers, Scope};
use crate::oauth::session::{Session, SessionView};
use crate::oauth::token::{AccessToken, RefreshToken, RefreshTokenView};
use crate::text::{contains_string, join3, str_eq};

verus! {

/// HTTP basic authentication of a client: its id and, maybe, its secret.
#[derive(Debug)]
pub struct BasicAuth(String, Option<String>);

/// The abstract value of a [`BasicAuth`].
pub struct BasicAuthView {
    pub username: Seq<char>,
    pub password: Option<Seq<char>>,
}

impl View for BasicAuth {
    type V = BasicAuthView;

    closed spec fn view(&self) -> BasicAuthView {
        BasicAuthView { username: self.0@, password: self.1.deep_view() }
    }
}

impl BasicAuth {
    /// Basic credentials of a user name and an optional password.
    pub fn new(username: String, password: Option<String>) -> (r: BasicAuth)
        ensures
            r@.username == username@,
            r@.password == password.deep_view(),
    {
        BasicAuth(username, password)
    }

    /// The user name (a client id).
    pub fn username(&self) -> (r: &String)
        ensures
            r@ == self@.username,
    {
        &self.0
    }

    /// The password (a client secret), if given.
    pub fn password(&self) -> (r: Option<String>)
        ensures
            r.deep_view() == self@.password,
    {
        match &self.1 {
            Some(p) => Some(p.clone()),
            None => None,
        }
    }
}

/// How long a new authorization code lives: five minutes.
pub const CODE_LIFETIME: i64 = 300;

/// How long a new access token lives: five minutes.
pub const ACCESS_TOKEN_LIFETIME: i64 = 300;

/// How long a new refresh token lives: one day.
pub const REFRESH_TOKEN_LIFETIME: i64 = 86400;

/// An error of the given kind and description.
pub open spec fn oauth_error(kind: ErrorKind, description: Seq<char>) -> ErrorView {
    ErrorView { kind, description }
}

/// The abstract value of a result that holds a scope.
pub open spec fn scope_result_view(r: Result<Scope, Error>) -> Result<Seq<Seq<char>>, ErrorView> {
    match r {
        Ok(s) => Ok(s@),
        Err(e) => Err(e@),
    }
}

/// The abstract value of a result that holds a client.
pub open spec fn client_result_view(r: Result<Client, Error>) -> Result<ClientView, ErrorView> {
    match r {
        Ok(c) => Ok(c@),
        Err(e) => Err(e@),
    }
}

/// The abstract value of a result that holds a session.
pub open spec fn session_result_view(r: Result<Session, Error>) -> Result<SessionView, ErrorView> {
    match r {
        Ok(s) => Ok(s@),
        Err(e) => Err(e@),
    }
}

/// The client id of a token request: the one in the request, else the user
/// name of basic authentication.
pub open spec fn chosen_client_id(requested: Option<Seq<char>>, auth: Option<BasicAuthView>) -> Option<Seq<char>> {
    match requested {
        Some(id) => Some(id),
        None => match auth {
            Some(a) => Some(a.username),
            None => None,
        },
    }
}

/// The client secret of a token request: the one in the request, else the
/// password of basic authentication.
pub open spec fn chosen_client_secret(requested: Option<Seq<char>>, auth: Option<BasicAuthView>) -> Option<Seq<char>> {
    match requested {
        Some(s) => Some(s),
        None => match auth {
            Some(a) => a.password,
            None => None,
        },
    }
}

/// The abstract value of optional basic authentication.
pub open spec fn auth_view(auth: Option<&BasicAuth>) -> Option<BasicAuthView> {
    match auth {
        Some(a) => Some(a@),
        None => None,
    }
}

/// The client id of a token request.
pub fn client_id_for(requested: &Option<String>, auth: Option<&BasicAuth>) -> (r: Option<String>)
    ensures
        r.deep_view() == chosen_client_id(requested.deep_view(), auth_view(auth)),
{
    match requested {
        Some(id) => Some(id.clone()),
        None => match auth {
            Some(a) => Some(a.username().clone()),
            None => None,
        },
    }
}

/// The client secret of a token request.
pub fn client_secret_for(requested: &Option<String>, auth: Option<&BasicAuth>) -> (r: Option<String>)
    ensures
        r.deep_view() == chosen_client_secret(requested.deep_view(), auth_view(auth)),
{
    match requested {
        Some(s) => Some(s.clone()),
        None => match auth {
            Some(a) => a.password(),
            None => None,
        },
    }
}

/// What a stored authorization code grants a token request of the given
/// client: the code's scope, unless the code is missing or expired
/// (`InvalidRequest`) or was issued to another client (`InvalidClient`).
pub open spec fn code_check(code: Option<AuthorizationCodeView>, now: i128, client_id: Seq<char>) -> Result<Seq<Seq<char>>, ErrorView> {
    match code {
        None => Err(oauth_error(ErrorKind::InvalidRequest, "invalid authorization code"@)),
        Some(c) => if c.expiration < now {
            Err(oauth_error(ErrorKind::InvalidRequest, "invalid authorization code"@))
        } else if c.session.client_id != client_id {
            Err(oauth_error(ErrorKind::InvalidClient, "invalid client '"@ + client_id + "'"@))
        } else {
            Ok(c.session.scope)
        },
    }
}

/// What a stored refresh token grants a token request of the given client:
/// the requested scope if the token's scope covers it, else the token's
/// scope; refused when the token is missing (`InvalidRequest`), expired
/// (`UnsupportedGrantType`), issued to another client (`InvalidClient`) or
/// narrower than the request (`InvalidScope`).
pub open spec fn refresh_check(token: Option<RefreshTokenView>, now: i128, client_id: Seq<char>, requested: Option<Seq<Seq<char>>>) -> Result<Seq<Seq<char>>, ErrorView> {
    match token {
        None => Err(oauth_error(ErrorKind::InvalidRequest, "invalid refresh token"@)),
        Some(t) => if t.expiration < now {
            Err(oauth_error(ErrorKind::UnsupportedGrantType, "invalid refresh token"@))
        } else if t.session.client_id != client_id {
            Err(oauth_error(ErrorKind::InvalidClient, "invalid client_id"@))
        } else {
            match requested {
                Some(other) => if !scope_covers(t.session.scope, other) {
                    Err(oauth_error(ErrorKind::InvalidScope, "invalid scope"@))
                } else {
                    Ok(other)
                },
                None => Ok(t.session.scope),
            }
        },
    }
}

/// Whether a stored client may be granted a scope with a redirect URI: it
/// must exist (`InvalidClient`), be allowed the whole scope
/// (`InvalidScope`), and, when a redirect URI is given, that URI must parse
/// and be one of the client's (`InvalidRedirectUri`).
pub open spec fn client_check(client: Option<ClientView>, redirect_uri: Option<Seq<char>>, scope: Seq<Seq<char>>) -> Result<ClientView, ErrorView> {
    match client {
        None => Err(oauth_error(ErrorKind::InvalidClient, "invalid client_id"@)),
        Some(c) => if !scope_covers(c.allowed_scopes, scope) {
            Err(oauth_error(ErrorKind::InvalidScope, "invalid scopes"@))
        } else {
            match redirect_uri {
                None => Ok(c),
                Some(u) => match url_parse(u) {
                    Err(m) => Err(oauth_error(ErrorKind::InvalidRedirectUri, m)),
                    Ok(s) => if c.allowed_redirect_uris.contains(s) {
                        Ok(c)
                    } else {
                        Err(oauth_error(ErrorKind::InvalidRedirectUri, "invalid redirect URI"@))
                    },
                },
            }
        },
    }
}

/// What authenticating a client takes: nothing for a public client; for a
/// confidential one, checking the given secret against its stored hash
/// (`InvalidClient` when no secret is given).
pub open spec fn secret_requirement(client: ClientView, secret: Option<Seq<char>>) -> Result<Option<(Seq<char>, Seq<char>)>, ErrorView> {
    match client.client_secret {
        None => Ok(None),
        Some(hash) => match secret {
            Some(s) => Ok(Some((hash, s))),
            None => Err(oauth_error(ErrorKind::InvalidClient, "invalid client credentials"@)),
        },
    }
}

/// The outcome of checking a client's secret: accepted when it matched,
/// `InvalidClient` when it did not, and the checker's own error when it
/// failed.
pub open spec fn secret_outcome(verified: Result<bool, ErrorView>) -> Result<(), ErrorView> {
    match verified {
        Ok(true) => Ok(()),
        Ok(false) => Err(oauth_error(ErrorKind::InvalidClient, "invalid client credentials"@)),
        Err(e) => Err(e),
    }
}

/// What a stored authorization code grants a token request.
pub fn check_code(code: Option<&AuthorizationCode>, now: i128, client_id: &str) -> (r: Result<Scope, Error>)
    ensures
        scope_result_view(r) == code_check(
            match code {
                Some(c) => Some(c@),
                None => None,
            },
            now,
            client_id@,
        ),
{
    match code {
        None => Err(Error::new(ErrorKind::InvalidRequest, String::from_str("invalid authorization code"))),
        Some(c) => {
            if c.is_expired_at(now) {
                Err(Error::new(ErrorKind::InvalidRequest, String::from_str("invalid authorization code")))
            } else if !str_eq(c.session().client_id().as_str(), client_id) {
                proof {
                    reveal_strlit("'");
                }
                Err(Error::new(ErrorKind::InvalidClient, join3("invalid client '", client_id, "'")))
            } else {
                Ok(c.session().scope().clone())
            }
        },
    }
}

/// What a stored refresh token grants a token request.
pub fn check_refresh_token(token: Option<&RefreshToken>, now: i128, client_id: &str, requested: Option<&Scope>) -> (r: Result<Scope, Error>)
    ensures
        scope_result_view(r) == refresh_check(
            match token {
                Some(t) => Some(t@),
                None => None,
            },
            now,
            client_id@,
            match requested {
                Some(s) => Some(s@),
                None => None,
            },
        ),
{
    match token {
        None => Err(Error::new(ErrorKind::InvalidRequest, String::from_str("invalid refresh token"))),
        Some(t) => {
            if t.is_expired_at(now) {
                Err(Error::new(ErrorKind::UnsupportedGrantType, String::from_str("invalid refresh token")))
            } else if !str_eq(t.session().client_id().as_str(), client_id) {
                Err(Error::new(ErrorKind::InvalidClient, String::from_str("invalid client_id")))
            } else {
                match requested {
                    Some(other) => {
                        if !t.session().scope().is_superset(other) {
                            Err(Error::new(ErrorKind::InvalidScope, String::from_str("invalid scope")))
                        } else {
                            Ok(other.clone())
                        }
                    },
                    None => Ok(t.session().scope().clone()),
                }
            }
        },
    }
}

/// Whether a stored client may be granted a scope with a redirect URI.
pub fn check_client(client: Option<Client>, redirect_uri: Option<&str>, scope: &Scope) -> (r: Result<Client, Error>)
    ensures
        client_result_view(r) == client_check(
            match client {
                Some(c) => Some(c@),
                None => None,
            },
            redirect_uri.deep_view(),
            scope@,
        ),
{
    let client = match client {
        Some(c) => c,
        None => {
            return Err(Error::new(ErrorKind::InvalidClient, String::from_str("invalid client_id")));
        },
    };
    if !client.allowed_scopes().is_superset(scope) {
        return Err(Error::new(ErrorKind::InvalidScope, String::from_str("invalid scopes")));
    }
    match redirect_uri {
        None => Ok(client),
        Some(u) => match parse_url(u) {
            Err(m) => Err(Error::new(ErrorKind::InvalidRedirectUri, m)),
            Ok(s) => {
                if contains_string(client.allowed_redirect_uris(), s.as_str()) {
                    Ok(client)
                } else {
                    Err(Error::new(ErrorKind::InvalidRedirectUri, String::from_str("invalid redirect URI")))
                }
            },
        },
    }
}

/// What authenticating a client takes: `None` for a public client, or the
/// stored hash and the given secret to check against each other.
pub fn secret_to_check(client: &Client, secret: Option<&String>) -> (r: Result<Option<(String, String)>, Error>)
    ensures
        match (r, secret_requirement(client@, secret.deep_view())) {
            (Ok(None), Ok(None)) => true,
            (Ok(Some((h, s))), Ok(Some((hv, sv)))) => h@ == hv && s@ == sv,
            (Err(e), Err(ev)) => e@ == ev,
            _ => false,
        },
{
    match client.kind() {
        ClientKind::Public => Ok(None),
        ClientKind::Confidential { secret: hash } => match secret {
            Some(s) => Ok(Some((hash, s.clone()))),
            None => Err(Error::new(ErrorKind::InvalidClient, String::from_str("invalid client credentials"))),
        },
    }
}

/// The outcome of checking a client's secret.
pub fn secret_checked(verified: Result<bool, Error>) -> (r: Result<(), Error>)
    ensures
        match (r, secret_outcome(
            match verified {
                Ok(b) => Ok(b),
                Err(e) => Err(e@),
            },
        )) {
            (Ok(()), Ok(())) => true,
            (Err(e), Err(ev)) => e@ == ev,
            _ => false,
        },
{
    match verified {
        Ok(true) => Ok(()),
        Ok(false) => Err(Error::new(ErrorKind::InvalidClient, String::from_str("invalid client credentials"))),
        Err(e) => Err(e),
    }
}

/// Where the validation of a token request stands.
#[derive(Debug)]
pub enum TokenValidation {
    /// Nothing done yet.
    Start,
    /// Waiting for the stored authorization code.
    AwaitingCode { client_id: String },
    /// Waiting for the stored refresh token.
    AwaitingRefreshToken { client_id: String },
    /// Waiting for the stored client.
    AwaitingClient { client_id: String, redirect_uri: Option<String>, scope: Scope },
    /// Waiting for the check of the client's secret.
    AwaitingSecret { client: Client },
    /// Finished.
    Done,
}

/// What the validation of a token request is told.
#[derive(Debug)]
pub enum ValidationEvent {
    /// The validation begins.
    Started,
    /// The authorization code stored under the signature of the requested
    /// code, if any, and the time it was looked up.
    CodeFetched { code: Option<AuthorizationCode>, now: i128 },
    /// The refresh token stored under the signature of the requested token,
    /// if any, and the time it was looked up.
    RefreshTokenFetched { token: Option<RefreshToken>, now: i128 },
    /// The client stored under the requested id, if any.
    ClientFetched { client: Option<Client> },
    /// Whether the given secret matched the stored hash.
    SecretChecked { verified: Result<bool, Error> },
}

/// What the validation of a token request asks for next.
#[derive(Debug)]
pub enum ValidationAction {
    /// Look up the authorization code (by the signature of this text).
    FetchCode { code: String },
    /// Look up the refresh token (by the signature of this text).
    FetchRefreshToken { refresh_token: String },
    /// Look up the client with this id.
    FetchClient { client_id: String },
    /// Check the secret against the stored password hash.
    CheckSecret { hash: String, secret: String },
    /// The validation is over: the client is granted, or the request refused.
    Finish { result: Result<Client, Error> },
}

/// Whether the validation in `state` waits for `event`.
pub open spec fn validation_expects(state: TokenValidation, event: ValidationEvent) -> bool {
    match state {
        TokenValidation::Start => event is Started,
        TokenValidation::AwaitingCode { .. } => event is CodeFetched,
        TokenValidation::AwaitingRefreshToken { .. } => event is RefreshTokenFetched,
        TokenValidation::AwaitingClient { .. } => event is ClientFetched,
        TokenValidation::AwaitingSecret { .. } => event is SecretChecked,
        TokenValidation::Done => false,
    }
}

/// The client secret that a token request carries.
pub open spec fn requested_secret(req: TokenRequest) -> Option<Seq<char>> {
    match req {
        TokenRequest::AuthorizationCode { client_secret, .. } => client_secret.deep_view(),
        TokenRequest::RefreshToken { client_secret, .. } => client_secret.deep_view(),
        TokenRequest::Unknown => None,
    }
}

/// The validation is over, refusing the request with `e`.
pub open spec fn finishes_with_error(state: TokenValidation, action: ValidationAction, e: ErrorView) -> bool {
    &&& state is Done
    &&& action matches ValidationAction::Finish { result: Err(x) } && x@ == e
}

/// The validation is over, granting the client `c`.
pub open spec fn finishes_with_client(state: TokenValidation, action: ValidationAction, c: ClientView) -> bool {
    &&& state is Done
    &&& action matches ValidationAction::Finish { result: Ok(x) } && x@ == c
}

/// What follows once the stored client `c` passed its checks: granted when
/// public; for a confidential client, checking the request's secret, or
/// refused when there is none.
pub open spec fn authenticates(req: TokenRequest, auth: Option<BasicAuthView>, c: ClientView, state: TokenValidation, action: ValidationAction) -> bool {
    match secret_requirement(c, chosen_client_secret(requested_secret(req), auth)) {
        Ok(None) => finishes_with_client(state, action, c),
        Ok(Some((h, sec))) => {
            &&& state matches TokenValidation::AwaitingSecret { client } && client@ == c
            &&& action matches ValidationAction::CheckSecret { hash, secret } && hash@ == h
                && secret@ == sec
        },
        Err(e) => finishes_with_error(state, action, e),
    }
}

/// After a check that yields a scope: refused with its error, or on to
/// looking up the client with that scope and redirect URI.
pub open spec fn continues_to_client(checked: Result<Seq<Seq<char>>, ErrorView>, client_id: Seq<char>, redirect_uri: Option<Seq<char>>, state: TokenValidation, action: ValidationAction) -> bool {
    match checked {
        Err(e) => finishes_with_error(state, action, e),
        Ok(sc) => {
            &&& state matches TokenValidation::AwaitingClient { client_id: c, redirect_uri: u, scope }
                && c@ == client_id && u.deep_view() == redirect_uri && scope@ == sc
            &&& action matches ValidationAction::FetchClient { client_id: c } && c@ == client_id
        },
    }
}

impl TokenValidation {
    /// Whether the validation waits for `event`.
    pub fn expects(&self, event: &ValidationEvent) -> (r: bool)
        ensures
            r == validation_expects(*self, *event),
    {
        match (self, event) {
            (TokenValidation::Start, ValidationEvent::Started) => true,
            (TokenValidation::AwaitingCode { .. }, ValidationEvent::CodeFetched { .. }) => true,
            (TokenValidation::AwaitingRefreshToken { .. }, ValidationEvent::RefreshTokenFetched { .. }) => true,
            (TokenValidation::AwaitingClient { .. }, ValidationEvent::ClientFetched { .. }) => true,
            (TokenValidation::AwaitingSecret { .. }, ValidationEvent::SecretChecked { .. }) => true,
            _ => false,
        }
    }
}

/// Where the validation goes from `state` on `event`, as `(next, action)`.
pub open spec fn step_outcome(
    req: TokenRequest,
    auth: Option<BasicAuthView>,
    state: TokenValidation,
    event: ValidationEvent,
    next: TokenValidation,
    action: ValidationAction,
) -> bool {
    match state {
        TokenValidation::Start => match req {
            TokenRequest::Unknown => finishes_with_error(
                next,
                action,
                oauth_error(ErrorKind::UnsupportedGrantType, "unsupported grant type"@),
            ),
            TokenRequest::AuthorizationCode { code, client_id, .. } => match chosen_client_id(
                client_id.deep_view(),
                auth,
            ) {
                None => finishes_with_error(next, action, oauth_error(ErrorKind::InvalidClient, "invalid client_id"@)),
                Some(id) => {
                    &&& next matches TokenValidation::AwaitingCode { client_id: c } && c@ == id
                    &&& action matches ValidationAction::FetchCode { code: k } && k@ == code@
                },
            },
            TokenRequest::RefreshToken { refresh_token, client_id, .. } => match chosen_client_id(
                client_id.deep_view(),
                auth,
            ) {
                None => finishes_with_error(next, action, oauth_error(ErrorKind::InvalidClient, "invalid client_id"@)),
                Some(id) => {
                    &&& next matches TokenValidation::AwaitingRefreshToken { client_id: c } && c@ == id
                    &&& action matches ValidationAction::FetchRefreshToken { refresh_token: t }
                        && t@ == refresh_token@
                },
            },
        },
        TokenValidation::AwaitingCode { client_id } => match event {
            ValidationEvent::CodeFetched { code, now } => continues_to_client(
                code_check(
                    match code {
                        Some(c) => Some(c@),
                        None => None,
                    },
                    now,
                    client_id@,
                ),
                client_id@,
                match req {
                    TokenRequest::AuthorizationCode { redirect_uri, .. } => Some(redirect_uri@),
                    _ => None,
                },
                next,
                action,
            ),
            _ => true,
        },
        TokenValidation::AwaitingRefreshToken { client_id } => match event {
            ValidationEvent::RefreshTokenFetched { token, now } => continues_to_client(
                refresh_check(
                    match token {
                        Some(t) => Some(t@),
                        None => None,
                    },
                    now,
                    client_id@,
                    match req {
                        TokenRequest::RefreshToken { scope: Some(s), .. } => Some(s@),
                        _ => None,
                    },
                ),
                client_id@,
                None,
                next,
                action,
            ),
            _ => true,
        },
        TokenValidation::AwaitingClient { redirect_uri, scope, .. } => match event {
            ValidationEvent::ClientFetched { client } => match client_check(
                match client {
                    Some(c) => Some(c@),
                    None => None,
                },
                redirect_uri.deep_view(),
                scope@,
            ) {
                Err(e) => finishes_with_error(next, action, e),
                Ok(c) => authenticates(req, auth, c, next, action),
            },
            _ => true,
        },
        TokenValidation::AwaitingSecret { client } => match event {
            ValidationEvent::SecretChecked { verified } => match secret_outcome(
                match verified {
                    Ok(b) => Ok(b),
                    Err(e) => Err(e@),
                },
            ) {
                Ok(()) => finishes_with_client(next, action, client@),
                Err(e) => finishes_with_error(next, action, e),
            },
            _ => true,
        },
        TokenValidation::Done => true,
    }
}

/// One step of the validation of a token request with optional basic
/// authentication: from where it stands and what it is told, where it
/// stands next and what it asks for.
pub fn validation_step(req: &TokenRequest, auth: Option<&BasicAuth>, state: TokenValidation, event: ValidationEvent) -> (r: (TokenValidation, ValidationAction))
    requires
        validation_expects(state, event),
    ensures
        step_outcome(*req, auth_view(auth), state, event, r.0, r.1),
{
    match state {
        TokenValidation::Start => match req {
            TokenRequest::Unknown => (
                TokenValidation::Done,
                ValidationAction::Finish {
                    result: Err(Error::new(ErrorKind::UnsupportedGrantType, String::from_str("unsupported grant type"))),
                },
            ),
            TokenRequest::AuthorizationCode { code, client_id, .. } => match client_id_for(client_id, auth) {
                None => (
                    TokenValidation::Done,
                    ValidationAction::Finish {
                        result: Err(Error::new(ErrorKind::InvalidClient, String::from_str("invalid client_id"))),
                    },
                ),
                Some(id) => (
                    TokenValidation::AwaitingCode { client_id: id },
                    ValidationAction::FetchCode { code: code.clone() },
                ),
            },
            TokenRequest::RefreshToken { refresh_token, client_id, .. } => match client_id_for(client_id, auth) {
                None => (
                    TokenValidation::Done,
                    ValidationAction::Finish {
                        result: Err(Error::new(ErrorKind::InvalidClient, String::from_str("invalid client_id"))),
                    },
                ),
                Some(id) => (
                    TokenValidation::AwaitingRefreshToken { client_id: id },
                    ValidationAction::FetchRefreshToken { refresh_token: refresh_token.clone() },
                ),
            },
        },
        TokenValidation::AwaitingCode { client_id } => match event {
            ValidationEvent::CodeFetched { code, now } => {
                let redirect_uri = match req {
                    TokenRequest::AuthorizationCode { redirect_uri, .. } => Some(redirect_uri.clone()),
                    _ => None,
                };
                match check_code(code.as_ref(), now, client_id.as_str()) {
                    Err(e) => (TokenValidation::Done, ValidationAction::Finish { result: Err(e) }),
                    Ok(scope) => {
                        let c = client_id.clone();
                        (
                            TokenValidation::AwaitingClient { client_id, redirect_uri, scope },
                            ValidationAction::FetchClient { client_id: c },
                        )
                    },
                }
            },
            _ => (TokenValidation::Done, ValidationAction::Finish { result: Err(Error::new(ErrorKind::ServerError, String::new())) }),
        },
        TokenValidation::AwaitingRefreshToken { client_id } => match event {
            ValidationEvent::RefreshTokenFetched { token, now } => {
                let requested = match req {
                    TokenRequest::RefreshToken { scope, .. } => scope.as_ref(),
                    _ => None,
                };
                match check_refresh_token(token.as_ref(), now, client_id.as_str(), requested) {
                    Err(e) => (TokenValidation::Done, ValidationAction::Finish { result: Err(e) }),
                    Ok(scope) => {
                        let c = client_id.clone();
                        (
                            TokenValidation::AwaitingClient { client_id, redirect_uri: None, scope },
                            ValidationAction::FetchClient { client_id: c },
                        )
                    },
                }
            },
            _ => (TokenValidation::Done, ValidationAction::Finish { result: Err(Error::new(ErrorKind::ServerError, String::new())) }),
        },
        TokenValidation::AwaitingClient { redirect_uri, scope, .. } => match event {
            ValidationEvent::ClientFetched { client } => {
                let uri = match &redirect_uri {
                    Some(u) => Some(u.as_str()),
                    None => None,
                };
                match check_client(client, uri, &scope) {
                    Err(e) => (TokenValidation::Done, ValidationAction::Finish { result: Err(e) }),
                    Ok(c) => {
                        let requested = match req {
                            TokenRequest::AuthorizationCode { client_secret, .. } => client_secret,
                            TokenRequest::RefreshToken { client_secret, .. } => client_secret,
                            TokenRequest::Unknown => &None,
                        };
                        let secret = client_secret_for(requested, auth);
                        match secret_to_check(&c, secret.as_ref()) {
                            Ok(None) => (TokenValidation::Done, ValidationAction::Finish { result: Ok(c) }),
                            Ok(Some((hash, secret))) => (
                                TokenValidation::AwaitingSecret { client: c },
                                ValidationAction::CheckSecret { hash, secret },
                            ),
                            Err(e) => (TokenValidation::Done, ValidationAction::Finish { result: Err(e) }),
                        }
                    },
                }
            },
            _ => (TokenValidation::Done, ValidationAction::Finish { result: Err(Error::new(ErrorKind::ServerError, String::new())) }),
        },
        TokenValidation::AwaitingSecret { client } => match event {
            ValidationEvent::SecretChecked { verified } => match secret_checked(verified) {
                Ok(()) => (TokenValidation::Done, ValidationAction::Finish { result: Ok(client) }),
                Err(e) => (TokenValidation::Done, ValidationAction::Finish { result: Err(e) }),
            },
            _ => (TokenValidation::Done, ValidationAction::Finish { result: Err(Error::new(ErrorKind::ServerError, String::new())) }),
        },
        TokenValidation::Done => (TokenValidation::Done, ValidationAction::Finish { result: Err(Error::new(ErrorKind::ServerError, String::new())) }),
    }
}

/// Whether the client of an authorization request may be granted its scope
/// and redirect URI, given the client stored under its id.
pub fn authorization_client(req: &AuthorizationRequest, client: Option<Client>) -> (r: Result<Client, Error>)
    ensures
        client_result_view(r) == client_check(
            match client {
                Some(c) => Some(c@),
                None => None,
            },
            Some(req.redirect_uri@),
            req.scope@,
        ),
{
    check_client(client, Some(req.redirect_uri.as_str()), &req.scope)
}

/// Opens the session of an authorization request: the session takes the
/// request's scope, and a code with the secret text `secret` grants it for
/// five minutes from now (from the time the clock shows, which can be any
/// it can show).
pub fn issue_code(req: &AuthorizationRequest, session: &mut Session, secret: String) -> (r: AuthorizationCode)
    ensures
        final(session)@ == (SessionView { scope: req.scope@, ..old(session)@ }),
        r@.code == secret@,
        r@.session == final(session)@,
        exists|now: int| 0 <= now < time_bound() && #[trigger] expiry(now, CODE_LIFETIME as int) == r@.expiration,
{
    let now = current_time();
    let r = issue_code_at(req, session, secret, now);
    assert(expiry(now as int, CODE_LIFETIME as int) == r@.expiration);
    r
}

/// Opens the session of an authorization request at time `now`: the
/// session takes the request's scope, and a code with the secret text
/// `secret` grants it for five minutes from `now`.
pub fn issue_code_at(req: &AuthorizationRequest, session: &mut Session, secret: String, now: i128) -> (r: AuthorizationCode)
    requires
        0 <= now < time_bound(),
    ensures
        final(session)@ == (SessionView { scope: req.scope@, ..old(session)@ }),
        r@.code == secret@,
        r@.session == final(session)@,
        r@.expiration == expiry(now as int, CODE_LIFETIME as int),
{
    session.set_scope(req.scope.clone());
    AuthorizationCode::new_at(secret, session.clone(), CODE_LIFETIME, now)
}

/// The answer to an authorization request: the stored code, and the
/// request's state handed back.
pub fn authorization_response(req: &AuthorizationRequest, code: AuthorizationCode) -> (r: AuthorizationResponse)
    ensures
        r.code()@ == code@,
        r.state_view() == req.state.deep_view(),
{
    let state = match &req.state {
        Some(s) => Some(s.clone()),
        None => None,
    };
    AuthorizationResponse::new(code, state)
}

/// What a token request trades in.
#[derive(Debug)]
pub enum Grant {
    /// An authorization code, by its secret text.
    Code { code: String },
    /// A refresh token, by its secret text.
    RefreshToken { refresh_token: String },
}

/// What a token request trades in; refused (`UnsupportedGrantType`) for an
/// unknown grant type.
pub fn grant_of(req: &TokenRequest) -> (r: Result<Grant, Error>)
    ensures
        match *req {
            TokenRequest::AuthorizationCode { code, .. } => r matches Ok(Grant::Code { code: c })
                && c@ == code@,
            TokenRequest::RefreshToken { refresh_token, .. } => r matches Ok(
                Grant::RefreshToken { refresh_token: t },
            ) && t@ == refresh_token@,
            TokenRequest::Unknown => r matches Err(e) && e@ == oauth_error(
                ErrorKind::UnsupportedGrantType,
                "unsupported grant type"@,
            ),
        },
{
    match req {
        TokenRequest::AuthorizationCode { code, .. } => Ok(Grant::Code { code: code.clone() }),
        TokenRequest::RefreshToken { refresh_token, .. } => Ok(Grant::RefreshToken { refresh_token: refresh_token.clone() }),
        TokenRequest::Unknown => Err(Error::new(ErrorKind::UnsupportedGrantType, String::from_str("unsupported grant type"))),
    }
}

/// The session that new tokens grant when a stored authorization code is
/// traded in: the code's; `InvalidRequest` when no code is stored.
pub fn code_session(code: Option<&AuthorizationCode>) -> (r: Result<Session, Error>)
    ensures
        session_result_view(r) == match code {
            Some(c) => Ok(c@.session),
            None => Err(oauth_error(ErrorKind::InvalidRequest, "invalid authorization code"@)),
        },
{
    match code {
        Some(c) => Ok(c.session().clone()),
        None => Err(Error::new(ErrorKind::InvalidRequest, String::from_str("invalid authorization code"))),
    }
}

/// The session that new tokens grant when a stored refresh token is traded
/// in at time `now`: the token's; `InvalidRequest` when no token is stored,
/// `UnsupportedGrantType` when it has expired.
pub fn refresh_session(token: Option<&RefreshToken>, now: i128) -> (r: Result<Session, Error>)
    ensures
        session_result_view(r) == match token {
            None => Err(oauth_error(ErrorKind::InvalidRequest, "invalid refresh token"@)),
            Some(t) => if t@.expiration < now {
                Err(oauth_error(ErrorKind::UnsupportedGrantType, "invalid refresh token"@))
            } else {
                Ok(t@.session)
            },
        },
{
    match token {
        None => Err(Error::new(ErrorKind::InvalidRequest, String::from_str("invalid refresh token"))),
        Some(t) => {
            if t.is_expired_at(now) {
                Err(Error::new(ErrorKind::UnsupportedGrantType, String::from_str("invalid refresh token")))
            } else {
                Ok(t.session().clone())
            }
        },
    }
}

/// New tokens with the given secret texts for a session: an access token
/// that lives five minutes and a refresh token that lives a day, from now
/// (from the time the clock shows, which can be any it can show; the same
/// time for both).
pub fn token_set(access_secret: String, refresh_secret: String, session: &Session) -> (r: (AccessToken, RefreshToken))
    ensures
        r.0@.token == Some(access_secret@),
        r.0@.session == session@,
        r.1@.token == Some(refresh_secret@),
        r.1@.session == session@,
        exists|now: int|
            0 <= now < time_bound() && #[trigger] expiry(now, ACCESS_TOKEN_LIFETIME as int) == r.0@.expiration
                && expiry(now, REFRESH_TOKEN_LIFETIME as int) == r.1@.expiration,
{
    let now = current_time();
    let r = token_set_at(access_secret, refresh_secret, session, now);
    assert(expiry(now as int, ACCESS_TOKEN_LIFETIME as int) == r.0@.expiration);
    r
}

/// New tokens with the given secret texts for a session, issued at time
/// `now`: an access token that lives five minutes and a refresh token that
/// lives a day.
pub fn token_set_at(access_secret: String, refresh_secret: String, session: &Session, now: i128) -> (r: (AccessToken, RefreshToken))
    requires
        0 <= now < time_bound(),
    ensures
        r.0@.token == Some(access_secret@),
        r.0@.session == session@,
        r.0@.expiration == expiry(now as int, ACCESS_TOKEN_LIFETIME as int),
        r.1@.token == Some(refresh_secret@),
        r.1@.session == session@,
        r.1@.expiration == expiry(now as int, REFRESH_TOKEN_LIFETIME as int),
{
    let access = AccessToken::new_at(access_secret, session.clone(), ACCESS_TOKEN_LIFETIME, now);
    let refresh = RefreshToken::new_at(refresh_secret, session.clone(), REFRESH_TOKEN_LIFETIME, now);
    (access, refresh)
}

/// The text of an optional token secret; empty when unknown.
pub open spec fn secret_text(token: Option<Seq<char>>) -> Seq<char> {
    match token {
        Some(t) => t,
        None => Seq::<char>::empty(),
    }
}

/// The answer to a token request at time `now`, handing out the stored
/// tokens of a session: the access token, of type bearer, the whole seconds
/// it has left (rounded toward zero), the refresh token and the session's
/// scope.
pub fn token_response_at(access: &AccessToken, refresh: &RefreshToken, session: &Session, now: i128) -> (r: TokenResponse)
    requires
        0 <= now < time_bound(),
        expiration_in_range(access@.expiration),
    ensures
        r.access_token@ == secret_text(access@.token),
        r.token_type == TokenType::Bearer,
        r.expires_in == seconds_left(access@.expiration as int, now as int),
        r.refresh_token.deep_view() == Some(secret_text(refresh@.token)),
        r.scope@ == session@.scope,
{
    TokenResponse {
        access_token: access.to_string(),
        token_type: TokenType::Bearer,
        expires_in: access.expires_in_at(now),
        refresh_token: Some(refresh.to_string()),
        scope: session.scope().clone(),
    }
}

/// An access token handed out no earlier than it was issued has at most its
/// five minutes left; handed out the moment it is issued, exactly five.
pub proof fn lemma_fresh_token_seconds_left(issued_at: int, answered_at: int)
    requires
        0 <= issued_at <= answered_at,
    ensures
        seconds_left(expiry(issued_at, ACCESS_TOKEN_LIFETIME as int), answered_at) <= ACCESS_TOKEN_LIFETIME,
        seconds_left(expiry(issued_at, ACCESS_TOKEN_LIFETIME as int), issued_at) == ACCESS_TOKEN_LIFETIME,
{
    let span = expiry(issued_at, ACCESS_TOKEN_LIFETIME as int) - answered_at;
    assert(span <= 300_000_000_000);
    if span >= 0 {
        assert(span / 1_000_000_000 <= 300) by (nonlinear_arith)
            requires
                0 <= span <= 300_000_000_000,
        ;
    }
    assert((300 * 1_000_000_000int) / 1_000_000_000 == 300) by (nonlinear_arith);
}

/// The answer to a token request, handing out the stored tokens of a
/// session, with the whole seconds the access token has left from now.
pub fn token_response(access: &AccessToken, refresh: &RefreshToken, session: &Session) -> (r: TokenResponse)
    requires
        expiration_in_range(access@.expiration),
    ensures
        r.access_token@ == secret_text(access@.token),
        r.token_type == TokenType::Bearer,
        exists|now: int| 0 <= now < time_bound() && r.expires_in == #[trigger] seconds_left(access@.expiration as int, now),
        r.refresh_token.deep_view() == Some(secret_text(refresh@.token)),
        r.scope@ == session@.scope,
{
    let now = current_time();
    let r = token_response_at(access, refresh, session, now);
    assert(0 <= now < time_bound() && r.expires_in == seconds_left(access@.expiration as int, now as int));
    r
}

/// The stored access token looked up by a client; `InvalidRequest` when
/// there is none.
pub fn found_access_token(token: Option<AccessToken>) -> (r: Result<AccessToken, Error>)
    ensures
        match token {
            Some(t) => r matches Ok(x) && x@ == t@,
            None => r matches Err(e) && e@ == oauth_error(ErrorKind::InvalidRequest, "access token not found"@),
        },
{
    match token {
        Some(t) => Ok(t),
        None => Err(Error::new(ErrorKind::InvalidRequest, String::from_str("access token not found"))),
    }
}

/// The stored refresh token looked up by a client; `InvalidRequest` when
/// there is none.
pub fn found_refresh_token(token: Option<RefreshToken>) -> (r: Result<RefreshToken, Error>)
    ensures
        match token {
            Some(t) => r matches Ok(x) && x@ == t@,
            None => r matches Err(e) && e@ == oauth_error(ErrorKind::InvalidRequest, "refresh token not found"@),
        },
{
    match token {
        Some(t) => Ok(t),
        None => Err(Error::new(ErrorKind::InvalidRequest, String::from_str("refresh token not found"))),
    }
}

/// How many steps the validation has left at most from `state`.
pub open spec fn steps_left(state: TokenValidation) -> nat {
    match state {
        TokenValidation::Start => 4,
        TokenValidation::AwaitingCode { .. } => 3,
        TokenValidation::AwaitingRefreshToken { .. } => 3,
        TokenValidation::AwaitingClient { .. } => 2,
        TokenValidation::AwaitingSecret { .. } => 1,
        TokenValidation::Done => 0,
    }
}

/// Every step of the validation of a token request moves it closer to its
/// end, so it is over after at most four steps; and it asks for nothing
/// more exactly when it is done.
pub proof fn lemma_validation_progresses(
    req: TokenRequest,
    auth: Option<BasicAuthView>,
    state: TokenValidation,
    event: ValidationEvent,
    next: TokenValidation,
    action: ValidationAction,
)
    requires
        validation_expects(state, event),
        step_outcome(req, auth, state, event, next, action),
    ensures
        steps_left(next) < steps_left(state),
        (next is Done) <==> (action is Finish),
{
}

/// A confidential client is granted only in the step that learns that its
/// secret matched.
pub proof fn lemma_confidential_client_needs_secret(
    req: TokenRequest,
    auth: Option<BasicAuthView>,
    state: TokenValidation,
    event: ValidationEvent,
    next: TokenValidation,
    action: ValidationAction,
)
    requires
        validation_expects(state, event),
        step_outcome(req, auth, state, event, next, action),
        action matches ValidationAction::Finish { result: Ok(c) } && c@.client_secret is Some,
    ensures
        state is AwaitingSecret,
        event matches ValidationEvent::SecretChecked { verified: Ok(true) },
{
}

/// An authorization code is traded in only while it has not expired, by the
/// client it was issued to, for the scope of its session.
pub proof fn lemma_granted_code_is_valid(code: Option<AuthorizationCodeView>, now: i128, client_id: Seq<char>)
    requires
        code_check(code, now, client_id) is Ok,
    ensures
        code matches Some(c) && now <= c.expiration && c.session.client_id == client_id
            && code_check(code, now, client_id) == Ok::<Seq<Seq<char>>, ErrorView>(c.session.scope),
{
}

/// A refresh token is traded in only while it has not expired, by the
/// client it was issued to, for a scope within the scope of its session.
pub proof fn lemma_granted_refresh_is_valid(
    token: Option<RefreshTokenView>,
    now: i128,
    client_id: Seq<char>,
    requested: Option<Seq<Seq<char>>>,
)
    requires
        refresh_check(token, now, client_id, requested) is Ok,
    ensures
        token matches Some(t) && now <= t.expiration && t.session.client_id == client_id
            && scope_covers(t.session.scope, refresh_check(token, now, client_id, requested)->Ok_0),
{
    let t = token->Some_0;
    if requested is None {
        crate::oauth::scope::lemma_covers_preorder(t.session.scope, t.session.scope, t.session.scope);
    }
}

/// A client is granted only with a scope that it is allowed, and only with
/// a redirect URI that parses to one of its own.
pub proof fn lemma_granted_client_is_allowed(client: Option<ClientView>, redirect_uri: Option<Seq<char>>, scope: Seq<Seq<char>>)
    requires
        client_check(client, redirect_uri, scope) is Ok,
    ensures
        client matches Some(c) && client_check(client, redirect_uri, scope) == Ok::<ClientView, ErrorView>(c)
            && scope_covers(c.allowed_scopes, scope),
        redirect_uri matches Some(u) ==> url_parse(u) matches Ok(s) && client->Some_0.allowed_redirect_uris.contains(s),
{
}

/// A stored client is granted for any of its allowed redirect URIs (as the
/// URL parser writes it) and any scope within its allowed scopes; with no
/// redirect URI to check, the scope alone decides.
pub proof fn lemma_allowed_client_is_granted(
    c: ClientView,
    redirect_uri: Option<Seq<char>>,
    scope: Seq<Seq<char>>,
)
    requires
        scope_covers(c.allowed_scopes, scope),
        redirect_uri matches Some(u) ==> url_parse(u) matches Ok(x) && c.allowed_redirect_uris.contains(x),
    ensures
        client_check(Some(c), redirect_uri, scope) == Ok::<ClientView, ErrorView>(c),
{
}

/// A redirect URI is refused exactly when it is no URL or when what the URL
/// parser writes of it is none of the client's allowed redirect URIs, for
/// a scope the client is allowed.
pub proof fn lemma_redirect_uri_check(c: ClientView, u: Seq<char>, scope: Seq<Seq<char>>, i: int)
    requires
        scope_covers(c.allowed_scopes, scope),
        url_parse(u) is Ok,
        0 <= i < c.allowed_redirect_uris.len(),
        c.allowed_redirect_uris[i] == url_parse(u)->Ok_0,
    ensures
        client_check(Some(c), Some(u), scope) == Ok::<ClientView, ErrorView>(c),
{
    assert(c.allowed_redirect_uris.contains(url_parse(u)->Ok_0));
}

/// A code issued for an authorization request and traded in, before it
/// expires, by the client it was issued to, grants the request's scope.
pub proof fn lemma_issued_code_grants_its_scope(code: AuthorizationCodeView, now: i128, scope: Seq<Seq<char>>)
    requires
        code.session.scope == scope,
        now <= code.expiration,
    ensures
        code_check(Some(code), now, code.session.client_id) == Ok::<Seq<Seq<char>>, ErrorView>(scope),
{
}

/// A refresh token traded in, before it expires, by the client it was
/// issued to, grants its whole scope when no scope is asked for, and the
/// scope asked for when the token's scope covers it.
pub proof fn lemma_refresh_grants_requested_scope(
    token: RefreshTokenView,
    now: i128,
    requested: Option<Seq<Seq<char>>>,
)
    requires
        now <= token.expiration,
        requested matches Some(r) ==> scope_covers(token.session.scope, r),
    ensures
        refresh_check(Some(token), now, token.session.client_id, requested) == Ok::<Seq<Seq<char>>, ErrorView>(
            match requested {
                Some(r) => r,
                None => token.session.scope,
            },
        ),
{
}

/// The client granted after the stored client passed its checks: at once
/// when it is public; for a confidential one, when the secret given matched
/// its hash.
pub open spec fn granted_client(
    checked: Result<ClientView, ErrorView>,
    secret: Option<Seq<char>>,
    verified: Result<bool, ErrorView>,
) -> Result<ClientView, ErrorView> {
    match checked {
        Err(e) => Err(e),
        Ok(c) => match secret_requirement(c, secret) {
            Err(e) => Err(e),
            Ok(None) => Ok(c),
            Ok(Some(_)) => match secret_outcome(verified) {
                Ok(()) => Ok(c),
                Err(e) => Err(e),
            },
        },
    }
}

/// What validating a token request comes to, given what the stores hold:
/// the code stored under the request's code, the refresh token stored under
/// its refresh token, the client stored under its client id, whether the
/// secret matched the client's hash, and the time.
pub open spec fn validation_outcome(
    req: TokenRequest,
    auth: Option<BasicAuthView>,
    code: Option<AuthorizationCodeView>,
    token: Option<RefreshTokenView>,
    client: Option<ClientView>,
    verified: Result<bool, ErrorView>,
    now: i128,
) -> Result<ClientView, ErrorView> {
    match req {
        TokenRequest::Unknown => Err(oauth_error(ErrorKind::UnsupportedGrantType, "unsupported grant type"@)),
        TokenRequest::AuthorizationCode { redirect_uri, client_id, client_secret, .. } => match chosen_client_id(
            client_id.deep_view(),
            auth,
        ) {
            None => Err(oauth_error(ErrorKind::InvalidClient, "invalid client_id"@)),
            Some(id) => match code_check(code, now, id) {
                Err(e) => Err(e),
                Ok(scope) => granted_client(
                    client_check(client, Some(redirect_uri@), scope),
                    chosen_client_secret(client_secret.deep_view(), auth),
                    verified,
                ),
            },
        },
        TokenRequest::RefreshToken { scope, client_id, client_secret, .. } => match chosen_client_id(
            client_id.deep_view(),
            auth,
        ) {
            None => Err(oauth_error(ErrorKind::InvalidClient, "invalid client_id"@)),
            Some(id) => match refresh_check(
                token,
                now,
                id,
                match scope {
                    Some(s) => Some(s@),
                    None => None,
                },
            ) {
                Err(e) => Err(e),
                Ok(granted) => granted_client(
                    client_check(client, None, granted),
                    chosen_client_secret(client_secret.deep_view(), auth),
                    verified,
                ),
            },
        },
    }
}

/// What the stores answer to an action of the validation.
pub open spec fn store_answer(
    action: ValidationAction,
    code: Option<AuthorizationCode>,
    token: Option<RefreshToken>,
    client: Option<Client>,
    verified: Result<bool, Error>,
    now: i128,
) -> ValidationEvent {
    match action {
        ValidationAction::FetchCode { .. } => ValidationEvent::CodeFetched { code, now },
        ValidationAction::FetchRefreshToken { .. } => ValidationEvent::RefreshTokenFetched { token, now },
        ValidationAction::FetchClient { .. } => ValidationEvent::ClientFetched { client },
        ValidationAction::CheckSecret { .. } => ValidationEvent::SecretChecked { verified },
        ValidationAction::Finish { .. } => ValidationEvent::Started,
    }
}

/// Running the validation of a token request from its start, answering
/// each lookup from the stores, ends (within four steps) with exactly the
/// outcome of the validation rules: the client when the request is valid,
/// else the first error the rules meet.
pub proof fn lemma_validation_run(
    req: TokenRequest,
    auth: Option<BasicAuthView>,
    code: Option<AuthorizationCode>,
    token: Option<RefreshToken>,
    client: Option<Client>,
    verified: Result<bool, Error>,
    now: i128,
    s1: TokenValidation,
    a1: ValidationAction,
    s2: TokenValidation,
    a2: ValidationAction,
    s3: TokenValidation,
    a3: ValidationAction,
    s4: TokenValidation,
    a4: ValidationAction,
)
    requires
        step_outcome(req, auth, TokenValidation::Start, ValidationEvent::Started, s1, a1),
        !(a1 is Finish) ==> step_outcome(req, auth, s1, store_answer(a1, code, token, client, verified, now), s2, a2),
        !(a1 is Finish) && !(a2 is Finish) ==> step_outcome(
            req,
            auth,
            s2,
            store_answer(a2, code, token, client, verified, now),
            s3,
            a3,
        ),
        !(a1 is Finish) && !(a2 is Finish) && !(a3 is Finish) ==> step_outcome(
            req,
            auth,
            s3,
            store_answer(a3, code, token, client, verified, now),
            s4,
            a4,
        ),
    ensures
        ({
            let last = if a1 is Finish {
                a1
            } else if a2 is Finish {
                a2
            } else if a3 is Finish {
                a3
            } else {
                a4
            };
            last matches ValidationAction::Finish { result } && client_result_view(result) == validation_outcome(
                req,
                auth,
                match code {
                    Some(c) => Some(c@),
                    None => None,
                },
                match token {
                    Some(t) => Some(t@),
                    None => None,
                },
                match client {
                    Some(c) => Some(c@),
                    None => None,
                },
                match verified {
                    Ok(b) => Ok(b),
                    Err(e) => Err(e@),
                },
                now,
            )
        }),
{
}

/// A code issued for an authorization request that its client was allowed
/// (its scope and redirect URI), traded in before it expires by that client
/// with the same redirect URI, is granted: at once to a public client, and
/// to a confidential one when its secret matches.
pub proof fn lemma_issued_code_is_tradeable(
    client: ClientView,
    scope: Seq<Seq<char>>,
    redirect_uri: Seq<char>,
    code: AuthorizationCodeView,
    req: TokenRequest,
    auth: Option<BasicAuthView>,
    token: Option<RefreshTokenView>,
    verified: Result<bool, ErrorView>,
    now: i128,
)
    requires
        client_check(Some(client), Some(redirect_uri), scope) is Ok,
        code.session.client_id == client.client_id,
        code.session.scope == scope,
        now <= code.expiration,
        req matches TokenRequest::AuthorizationCode { redirect_uri: u, client_id, .. } && u@ == redirect_uri
            && chosen_client_id(client_id.deep_view(), auth) == Some(client.client_id),
    ensures
        validation_outcome(req, auth, Some(code), token, Some(client), verified, now) == granted_client(
            Ok(client),
            chosen_client_secret(requested_secret(req), auth),
            verified,
        ),
        client.client_secret is None ==> validation_outcome(req, auth, Some(code), token, Some(client), verified, now)
            == Ok::<ClientView, ErrorView>(client),
{
}

/// Where the trading of a validated token request for tokens stands.
#[derive(Debug)]
pub enum TokenIssue {
    /// Nothing done yet.
    Start,
    /// Waiting for the stored authorization code with this secret text.
    AwaitingCode { code: String },
    /// Waiting for the stored refresh token with this secret text.
    AwaitingRefreshToken { refresh_token: String },
    /// Waiting for new tokens; then the code with this text is revoked.
    IssuingForCode { code: String },
    /// Waiting for the code to be revoked; then these tokens are handed out.
    RevokingCode { response: TokenResponse },
    /// Waiting for the refresh token to be revoked; then new tokens are
    /// issued for this session.
    RevokingRefreshToken { session: Session },
    /// Waiting for new tokens, which are handed out.
    IssuingForRefresh,
    /// Finished.
    Done,
}

/// What the trading of a token request is told.
#[derive(Debug)]
pub enum IssueEvent {
    /// The trading begins.
    Started,
    /// The authorization code stored under the signature of the requested
    /// code, if any.
    CodeFetched { code: Option<AuthorizationCode> },
    /// The refresh token stored under the signature of the requested token,
    /// if any, and the time it was looked up.
    RefreshTokenFetched { token: Option<RefreshToken>, now: i128 },
    /// The answer with the new tokens, once they are stored, or why they
    /// could not be.
    TokensIssued { result: Result<TokenResponse, Error> },
    /// Whether the revocation succeeded.
    Revoked { outcome: Result<(), Error> },
}

/// What the trading of a token request asks for next.
#[derive(Debug)]
pub enum IssueAction {
    /// Look up the authorization code (by the signature of this text).
    FetchCode { code: String },
    /// Look up the refresh token (by the signature of this text).
    FetchRefreshToken { refresh_token: String },
    /// Issue and store new tokens for this session.
    IssueTokens { session: Session },
    /// Revoke the authorization code (by the signature of this text).
    RevokeCode { code: String },
    /// Revoke the refresh token (by the signature of this text).
    RevokeRefreshToken { refresh_token: String },
    /// The trading is over: the answer, or why the request is refused.
    Finish { result: Result<TokenResponse, Error> },
}

/// Whether the trading in `state` waits for `event`.
pub open spec fn issue_expects(state: TokenIssue, event: IssueEvent) -> bool {
    match state {
        TokenIssue::Start => event is Started,
        TokenIssue::AwaitingCode { .. } => event is CodeFetched,
        TokenIssue::AwaitingRefreshToken { .. } => event is RefreshTokenFetched,
        TokenIssue::IssuingForCode { .. } => event is TokensIssued,
        TokenIssue::RevokingCode { .. } => event is Revoked,
        TokenIssue::RevokingRefreshToken { .. } => event is Revoked,
        TokenIssue::IssuingForRefresh => event is TokensIssued,
        TokenIssue::Done => false,
    }
}

/// The trading is over with `result`.
pub open spec fn issue_finishes(next: TokenIssue, action: IssueAction, result: Result<TokenResponse, Error>) -> bool {
    &&& next is Done
    &&& action == IssueAction::Finish { result }
}

/// The trading is over, refusing the request with `e`.
pub open spec fn issue_fails(next: TokenIssue, action: IssueAction, e: ErrorView) -> bool {
    &&& next is Done
    &&& action matches IssueAction::Finish { result: Err(x) } && x@ == e
}

/// Where the trading goes from `state` on `event`, as `(next, action)`:
/// for a code, the tokens are issued before the code is revoked; for a
/// refresh token, the token is revoked before new ones are issued.
pub open spec fn issue_outcome(
    req: TokenRequest,
    state: TokenIssue,
    event: IssueEvent,
    next: TokenIssue,
    action: IssueAction,
) -> bool {
    match state {
        TokenIssue::Start => match req {
            TokenRequest::Unknown => issue_fails(
                next,
                action,
                oauth_error(ErrorKind::UnsupportedGrantType, "unsupported grant type"@),
            ),
            TokenRequest::AuthorizationCode { code, .. } => {
                &&& next matches TokenIssue::AwaitingCode { code: c } && c@ == code@
                &&& action matches IssueAction::FetchCode { code: c } && c@ == code@
            },
            TokenRequest::RefreshToken { refresh_token, .. } => {
                &&& next matches TokenIssue::AwaitingRefreshToken { refresh_token: t } && t@ == refresh_token@
                &&& action matches IssueAction::FetchRefreshToken { refresh_token: t } && t@ == refresh_token@
            },
        },
        TokenIssue::AwaitingCode { code } => match event {
            IssueEvent::CodeFetched { code: stored } => match stored {
                None => issue_fails(next, action, oauth_error(ErrorKind::InvalidRequest, "invalid authorization code"@)),
                Some(c) => {
                    &&& next matches TokenIssue::IssuingForCode { code: k } && k@ == code@
                    &&& action matches IssueAction::IssueTokens { session } && session@ == c@.session
                },
            },
            _ => true,
        },
        TokenIssue::AwaitingRefreshToken { refresh_token } => match event {
            IssueEvent::RefreshTokenFetched { token, now } => match token {
                None => issue_fails(next, action, oauth_error(ErrorKind::InvalidRequest, "invalid refresh token"@)),
                Some(t) => if t@.expiration < now {
                    issue_fails(next, action, oauth_error(ErrorKind::UnsupportedGrantType, "invalid refresh token"@))
                } else {
                    &&& next matches TokenIssue::RevokingRefreshToken { session } && session@ == t@.session
                    &&& action matches IssueAction::RevokeRefreshToken { refresh_token: k } && k@
                        == refresh_token@
                },
            },
            _ => true,
        },
        TokenIssue::IssuingForCode { code } => match event {
            IssueEvent::TokensIssued { result } => match result {
                Err(e) => issue_finishes(next, action, Err(e)),
                Ok(response) => {
                    &&& next == TokenIssue::RevokingCode { response }
                    &&& action matches IssueAction::RevokeCode { code: k } && k@ == code@
                },
            },
            _ => true,
        },
        TokenIssue::RevokingCode { response } => match event {
            IssueEvent::Revoked { outcome } => match outcome {
                Err(e) => issue_finishes(next, action, Err(e)),
                Ok(()) => issue_finishes(next, action, Ok(response)),
            },
            _ => true,
        },
        TokenIssue::RevokingRefreshToken { session } => match event {
            IssueEvent::Revoked { outcome } => match outcome {
                Err(e) => issue_finishes(next, action, Err(e)),
                Ok(()) => {
                    &&& next is IssuingForRefresh
                    &&& action matches IssueAction::IssueTokens { session: s } && s@ == session@
                },
            },
            _ => true,
        },
        TokenIssue::IssuingForRefresh => match event {
            IssueEvent::TokensIssued { result } => issue_finishes(next, action, result),
            _ => true,
        },
        TokenIssue::Done => true,
    }
}

impl TokenIssue {
    /// Whether the trading waits for `event`.
    pub fn expects(&self, event: &IssueEvent) -> (r: bool)
        ensures
            r == issue_expects(*self, *event),
    {
        match (self, event) {
            (TokenIssue::Start, IssueEvent::Started) => true,
            (TokenIssue::AwaitingCode { .. }, IssueEvent::CodeFetched { .. }) => true,
            (TokenIssue::AwaitingRefreshToken { .. }, IssueEvent::RefreshTokenFetched { .. }) => true,
            (TokenIssue::IssuingForCode { .. }, IssueEvent::TokensIssued { .. }) => true,
            (TokenIssue::RevokingCode { .. }, IssueEvent::Revoked { .. }) => true,
            (TokenIssue::RevokingRefreshToken { .. }, IssueEvent::Revoked { .. }) => true,
            (TokenIssue::IssuingForRefresh, IssueEvent::TokensIssued { .. }) => true,
            _ => false,
        }
    }
}

/// One step of trading a validated token request for tokens: from where it
/// stands and what it is told, where it stands next and what it asks for.
pub fn issue_step(req: &TokenRequest, state: TokenIssue, event: IssueEvent) -> (r: (TokenIssue, IssueAction))
    requires
        issue_expects(state, event),
    ensures
        issue_outcome(*req, state, event, r.0, r.1),
{
    let unexpected = Error::new(ErrorKind::ServerError, String::new());
    match state {
        TokenIssue::Start => match grant_of(req) {
            Err(e) => (TokenIssue::Done, IssueAction::Finish { result: Err(e) }),
            Ok(Grant::Code { code }) => {
                let c = code.clone();
                (TokenIssue::AwaitingCode { code }, IssueAction::FetchCode { code: c })
            },
            Ok(Grant::RefreshToken { refresh_token }) => {
                let t = refresh_token.clone();
                (TokenIssue::AwaitingRefreshToken { refresh_token }, IssueAction::FetchRefreshToken { refresh_token: t })
            },
        },
        TokenIssue::AwaitingCode { code } => match event {
            IssueEvent::CodeFetched { code: stored } => match code_session(stored.as_ref()) {
                Err(e) => (TokenIssue::Done, IssueAction::Finish { result: Err(e) }),
                Ok(session) => (TokenIssue::IssuingForCode { code }, IssueAction::IssueTokens { session }),
            },
            _ => (TokenIssue::Done, IssueAction::Finish { result: Err(unexpected) }),
        },
        TokenIssue::AwaitingRefreshToken { refresh_token } => match event {
            IssueEvent::RefreshTokenFetched { token, now } => match refresh_session(token.as_ref(), now) {
                Err(e) => (TokenIssue::Done, IssueAction::Finish { result: Err(e) }),
                Ok(session) => (
                    TokenIssue::RevokingRefreshToken { session },
                    IssueAction::RevokeRefreshToken { refresh_token },
                ),
            },
            _ => (TokenIssue::Done, IssueAction::Finish { result: Err(unexpected) }),
        },
        TokenIssue::IssuingForCode { code } => match event {
            IssueEvent::TokensIssued { result } => match result {
                Err(e) => (TokenIssue::Done, IssueAction::Finish { result: Err(e) }),
                Ok(response) => (TokenIssue::RevokingCode { response }, IssueAction::RevokeCode { code }),
            },
            _ => (TokenIssue::Done, IssueAction::Finish { result: Err(unexpected) }),
        },
        TokenIssue::RevokingCode { response } => match event {
            IssueEvent::Revoked { outcome } => match outcome {
                Err(e) => (TokenIssue::Done, IssueAction::Finish { result: Err(e) }),
                Ok(()) => (TokenIssue::Done, IssueAction::Finish { result: Ok(response) }),
            },
            _ => (TokenIssue::Done, IssueAction::Finish { result: Err(unexpected) }),
        },
        TokenIssue::RevokingRefreshToken { session } => match event {
            IssueEvent::Revoked { outcome } => match outcome {
                Err(e) => (TokenIssue::Done, IssueAction::Finish { result: Err(e) }),
                Ok(()) => (TokenIssue::IssuingForRefresh, IssueAction::IssueTokens { session }),
            },
            _ => (TokenIssue::Done, IssueAction::Finish { result: Err(unexpected) }),
        },
        TokenIssue::IssuingForRefresh => match event {
            IssueEvent::TokensIssued { result } => (TokenIssue::Done, IssueAction::Finish { result }),
            _ => (TokenIssue::Done, IssueAction::Finish { result: Err(unexpected) }),
        },
        TokenIssue::Done => (TokenIssue::Done, IssueAction::Finish { result: Err(unexpected) }),
    }
}

/// How many steps the trading has left at most from `state`.
pub open spec fn issue_steps_left(state: TokenIssue) -> nat {
    match state {
        TokenIssue::Start => 4,
        TokenIssue::AwaitingCode { .. } => 3,
        TokenIssue::AwaitingRefreshToken { .. } => 3,
        TokenIssue::IssuingForCode { .. } => 2,
        TokenIssue::RevokingRefreshToken { .. } => 2,
        TokenIssue::RevokingCode { .. } => 1,
        TokenIssue::IssuingForRefresh => 1,
        TokenIssue::Done => 0,
    }
}

/// Every step of trading a token request moves it closer to its end, so
/// it is over after at most four steps; and it asks for nothing more
/// exactly when it is done.
pub proof fn lemma_issue_progresses(req: TokenRequest, state: TokenIssue, event: IssueEvent, next: TokenIssue, action: IssueAction)
    requires
        issue_expects(state, event),
        issue_outcome(req, state, event, next, action),
    ensures
        issue_steps_left(next) < issue_steps_left(state),
        (next is Done) <==> (action is Finish),
{
}

/// The order of trading: a code is revoked only once new tokens were
/// issued for its session; new tokens for a refresh token are issued only
/// once that token was revoked; and tokens are handed out only after the
/// code or refresh token they replace was revoked.
pub proof fn lemma_issue_order(req: TokenRequest, state: TokenIssue, event: IssueEvent, next: TokenIssue, action: IssueAction)
    requires
        issue_expects(state, event),
        issue_outcome(req, state, event, next, action),
    ensures
        action is RevokeCode ==> state is IssuingForCode && event matches IssueEvent::TokensIssued { result: Ok(_) },
        action is IssueTokens ==> state is AwaitingCode || (state is RevokingRefreshToken
            && event matches IssueEvent::Revoked { outcome: Ok(()) }),
        action matches IssueAction::Finish { result: Ok(_) } ==> (state is RevokingCode
            && event matches IssueEvent::Revoked { outcome: Ok(()) }) || state is IssuingForRefresh,
{
}

/// What trading a validated token request comes to, given what the stores
/// answer: the stored code or refresh token, the time, the answer of
/// issuing tokens, and that of revoking.
pub open spec fn issue_result(
    req: TokenRequest,
    code: Option<AuthorizationCodeView>,
    token: Option<RefreshTokenView>,
    now: i128,
    issued: Result<TokenResponse, Error>,
    revoked: Result<(), Error>,
) -> Result<TokenResponse, Error> {
    match req {
        TokenRequest::Unknown => Err(arbitrary()),
        TokenRequest::AuthorizationCode { .. } => match code {
            None => Err(arbitrary()),
            Some(_) => match issued {
                Err(e) => Err(e),
                Ok(response) => match revoked {
                    Err(e) => Err(e),
                    Ok(()) => Ok(response),
                },
            },
        },
        TokenRequest::RefreshToken { .. } => match token {
            None => Err(arbitrary()),
            Some(t) => if t.expiration < now {
                Err(arbitrary())
            } else {
                match revoked {
                    Err(e) => Err(e),
                    Ok(()) => issued,
                }
            },
        },
    }
}

/// The error that trading a token request is refused with when the
/// request itself, or what it trades in, is at fault.
pub open spec fn issue_refusal(req: TokenRequest, code: Option<AuthorizationCodeView>, token: Option<RefreshTokenView>, now: i128) -> Option<ErrorView> {
    match req {
        TokenRequest::Unknown => Some(oauth_error(ErrorKind::UnsupportedGrantType, "unsupported grant type"@)),
        TokenRequest::AuthorizationCode { .. } => match code {
            None => Some(oauth_error(ErrorKind::InvalidRequest, "invalid authorization code"@)),
            Some(_) => None,
        },
        TokenRequest::RefreshToken { .. } => match token {
            None => Some(oauth_error(ErrorKind::InvalidRequest, "invalid refresh token"@)),
            Some(t) => if t.expiration < now {
                Some(oauth_error(ErrorKind::UnsupportedGrantType, "invalid refresh token"@))
            } else {
                None
            },
        },
    }
}

/// What the stores answer to an action of the trading.
pub open spec fn issue_answer(
    action: IssueAction,
    code: Option<AuthorizationCode>,
    token: Option<RefreshToken>,
    now: i128,
    issued: Result<TokenResponse, Error>,
    revoked: Result<(), Error>,
) -> IssueEvent {
    match action {
        IssueAction::FetchCode { .. } => IssueEvent::CodeFetched { code },
        IssueAction::FetchRefreshToken { .. } => IssueEvent::RefreshTokenFetched { token, now },
        IssueAction::IssueTokens { .. } => IssueEvent::TokensIssued { result: issued },
        IssueAction::RevokeCode { .. } => IssueEvent::Revoked { outcome: revoked },
        IssueAction::RevokeRefreshToken { .. } => IssueEvent::Revoked { outcome: revoked },
        IssueAction::Finish { .. } => IssueEvent::Started,
    }
}

/// Where `action` asks for new tokens, it asks for them for the session of
/// the code or refresh token that the request trades in.
pub open spec fn asks_for_traded_session(
    req: TokenRequest,
    code: Option<AuthorizationCodeView>,
    token: Option<RefreshTokenView>,
    action: IssueAction,
) -> bool {
    action matches IssueAction::IssueTokens { session } ==> Some(session@) == match req {
        TokenRequest::AuthorizationCode { .. } => match code {
            Some(c) => Some(c.session),
            None => None,
        },
        TokenRequest::RefreshToken { .. } => match token {
            Some(t) => Some(t.session),
            None => None,
        },
        TokenRequest::Unknown => None,
    }
}

/// Running the trading of a token request from its start, answering each
/// request from the stores, ends (within four steps) refused for what the
/// request trades in, or else with the answer of issuing and revoking in
/// the order of the trade; new tokens are asked for the session of the code
/// or refresh token traded in.
pub proof fn lemma_issue_run(
    req: TokenRequest,
    code: Option<AuthorizationCode>,
    token: Option<RefreshToken>,
    now: i128,
    issued: Result<TokenResponse, Error>,
    revoked: Result<(), Error>,
    s1: TokenIssue,
    a1: IssueAction,
    s2: TokenIssue,
    a2: IssueAction,
    s3: TokenIssue,
    a3: IssueAction,
    s4: TokenIssue,
    a4: IssueAction,
)
    requires
        issue_outcome(req, TokenIssue::Start, IssueEvent::Started, s1, a1),
        !(a1 is Finish) ==> issue_outcome(req, s1, issue_answer(a1, code, token, now, issued, revoked), s2, a2),
        !(a1 is Finish) && !(a2 is Finish) ==> issue_outcome(
            req,
            s2,
            issue_answer(a2, code, token, now, issued, revoked),
            s3,
            a3,
        ),
        !(a1 is Finish) && !(a2 is Finish) && !(a3 is Finish) ==> issue_outcome(
            req,
            s3,
            issue_answer(a3, code, token, now, issued, revoked),
            s4,
            a4,
        ),
    ensures
        ({
            let code_view = match code {
                Some(c) => Some(c@),
                None => None,
            };
            let token_view = match token {
                Some(t) => Some(t@),
                None => None,
            };
            let last = if a1 is Finish {
                a1
            } else if a2 is Finish {
                a2
            } else if a3 is Finish {
                a3
            } else {
                a4
            };
            &&& last matches IssueAction::Finish { result } && match issue_refusal(req, code_view, token_view, now) {
                Some(e) => result matches Err(x) && x@ == e,
                None => result == issue_result(req, code_view, token_view, now, issued, revoked),
            }
            &&& asks_for_traded_session(req, code_view, token_view, a1)
            &&& !(a1 is Finish) ==> asks_for_traded_session(req, code_view, token_view, a2)
            &&& !(a1 is Finish) && !(a2 is Finish) ==> asks_for_traded_session(req, code_view, token_view, a3)
        }),
{
    match req {
        TokenRequest::AuthorizationCode { .. } => {
            assert(s1 is AwaitingCode && a1 is FetchCode);
            match code {
                None => {},
                Some(c) => {
                    assert(s2 is IssuingForCode && a2 is IssueTokens);
                },
            }
        },
        TokenRequest::RefreshToken { .. } => {
            assert(s1 is AwaitingRefreshToken && a1 is FetchRefreshToken);
            match token {
                None => {},
                Some(t) => {
                    if t@.expiration >= now {
                        assert(s2 is RevokingRefreshToken && a2 is RevokeRefreshToken);
                    }
                },
            }
        },
        TokenRequest::Unknown => {},
    }
}

/// The authorization code stored under the text `code`, if any.
pub open spec fn code_in_store(store: Map<Seq<char>, AuthorizationCode>, code: Seq<char>) -> Option<AuthorizationCode> {
    if store.dom().contains(code) {
        Some(store[code])
    } else {
        None
    }
}

/// The refresh token stored under the text `token`, if any.
pub open spec fn refresh_token_in_store(store: Map<Seq<char>, RefreshToken>, token: Seq<char>) -> Option<RefreshToken> {
    if store.dom().contains(token) {
        Some(store[token])
    } else {
        None
    }
}

/// The codes stored once `action` is performed: revoking a code removes it.
pub open spec fn codes_after(store: Map<Seq<char>, AuthorizationCode>, action: IssueAction) -> Map<Seq<char>, AuthorizationCode> {
    match action {
        IssueAction::RevokeCode { code } => store.remove(code@),
        _ => store,
    }
}

/// The refresh tokens stored once `action` is performed: revoking a refresh
/// token removes it.
pub open spec fn refresh_tokens_after(store: Map<Seq<char>, RefreshToken>, action: IssueAction) -> Map<Seq<char>, RefreshToken> {
    match action {
        IssueAction::RevokeRefreshToken { refresh_token } => store.remove(refresh_token@),
        _ => store,
    }
}

/// The trading of a request runs from its start for four steps, the stores
/// answering: codes and refresh tokens are looked up in the stores given,
/// and issuing and revoking answer as given.
pub open spec fn issue_ran(
    req: TokenRequest,
    codes: Map<Seq<char>, AuthorizationCode>,
    tokens: Map<Seq<char>, RefreshToken>,
    now: i128,
    issued: Result<TokenResponse, Error>,
    revoked: Result<(), Error>,
    s1: TokenIssue,
    a1: IssueAction,
    s2: TokenIssue,
    a2: IssueAction,
    s3: TokenIssue,
    a3: IssueAction,
    s4: TokenIssue,
    a4: IssueAction,
) -> bool {
    let (code, token) = match req {
        TokenRequest::AuthorizationCode { code, .. } => (code_in_store(codes, code@), None),
        TokenRequest::RefreshToken { refresh_token, .. } => (None, refresh_token_in_store(tokens, refresh_token@)),
        TokenRequest::Unknown => (None, None),
    };
    &&& issue_outcome(req, TokenIssue::Start, IssueEvent::Started, s1, a1)
    &&& !(a1 is Finish) ==> issue_outcome(req, s1, issue_answer(a1, code, token, now, issued, revoked), s2, a2)
    &&& !(a1 is Finish) && !(a2 is Finish) ==> issue_outcome(
        req,
        s2,
        issue_answer(a2, code, token, now, issued, revoked),
        s3,
        a3,
    )
    &&& !(a1 is Finish) && !(a2 is Finish) && !(a3 is Finish) ==> issue_outcome(
        req,
        s3,
        issue_answer(a3, code, token, now, issued, revoked),
        s4,
        a4,
    )
}

/// The action that ends a run of four steps: the first that finishes.
pub open spec fn issue_last(a1: IssueAction, a2: IssueAction, a3: IssueAction, a4: IssueAction) -> IssueAction {
    if a1 is Finish {
        a1
    } else if a2 is Finish {
        a2
    } else if a3 is Finish {
        a3
    } else {
        a4
    }
}

/// A code is redeemed at most once: once trading a code request succeeds
/// (its run ends with tokens handed out), the code has been revoked from
/// the store, and trading the same request again against that store is
/// refused as an invalid authorization code.
pub proof fn lemma_code_redeemed_once(
    req: TokenRequest,
    codes: Map<Seq<char>, AuthorizationCode>,
    tokens: Map<Seq<char>, RefreshToken>,
    now: i128,
    issued: Result<TokenResponse, Error>,
    revoked: Result<(), Error>,
    s1: TokenIssue,
    a1: IssueAction,
    s2: TokenIssue,
    a2: IssueAction,
    s3: TokenIssue,
    a3: IssueAction,
    s4: TokenIssue,
    a4: IssueAction,
    again_now: i128,
    again_issued: Result<TokenResponse, Error>,
    again_revoked: Result<(), Error>,
    t1: TokenIssue,
    b1: IssueAction,
    t2: TokenIssue,
    b2: IssueAction,
    t3: TokenIssue,
    b3: IssueAction,
    t4: TokenIssue,
    b4: IssueAction,
)
    requires
        req is AuthorizationCode,
        issue_ran(req, codes, tokens, now, issued, revoked, s1, a1, s2, a2, s3, a3, s4, a4),
        issue_last(a1, a2, a3, a4) matches IssueAction::Finish { result: Ok(_) },
        issue_ran(
            req,
            codes_after(codes_after(codes_after(codes, a1), a2), a3),
            tokens,
            again_now,
            again_issued,
            again_revoked,
            t1,
            b1,
            t2,
            b2,
            t3,
            b3,
            t4,
            b4,
        ),
    ensures
        req matches TokenRequest::AuthorizationCode { code, .. } && !codes_after(
            codes_after(codes_after(codes, a1), a2),
            a3,
        ).dom().contains(code@),
        b2 matches IssueAction::Finish { result: Err(x) } && x@ == oauth_error(
            ErrorKind::InvalidRequest,
            "invalid authorization code"@,
        ),
{
    if let TokenRequest::AuthorizationCode { code, .. } = req {
        assert(a1 is FetchCode);
        if code_in_store(codes, code@) is None {
            assert(a2 is Finish);
        }
        assert(a2 is IssueTokens);
        assert(a3 matches IssueAction::RevokeCode { code: k } && k@ == code@);
        assert(codes_after(codes_after(codes_after(codes, a1), a2), a3) =~= codes.remove(code@));
        assert(b1 matches IssueAction::FetchCode { code: c } && c@ == code@);
    }
}

/// A refresh token is used at most once: once trading a refresh request
/// succeeds (its run ends with tokens handed out), the token has been
/// revoked from the store, and trading the same request again against that
/// store is refused as an invalid refresh token.
pub proof fn lemma_refresh_token_used_once(
    req: TokenRequest,
    codes: Map<Seq<char>, AuthorizationCode>,
    tokens: Map<Seq<char>, RefreshToken>,
    now: i128,
    issued: Result<TokenResponse, Error>,
    revoked: Result<(), Error>,
    s1: TokenIssue,
    a1: IssueAction,
    s2: TokenIssue,
    a2: IssueAction,
    s3: TokenIssue,
    a3: IssueAction,
    s4: TokenIssue,
    a4: IssueAction,
    again_now: i128,
    again_issued: Result<TokenResponse, Error>,
    again_revoked: Result<(), Error>,
    t1: TokenIssue,
    b1: IssueAction,
    t2: TokenIssue,
    b2: IssueAction,
    t3: TokenIssue,
    b3: IssueAction,
    t4: TokenIssue,
    b4: IssueAction,
)
    requires
        req is RefreshToken,
        issue_ran(req, codes, tokens, now, issued, revoked, s1, a1, s2, a2, s3, a3, s4, a4),
        issue_last(a1, a2, a3, a4) matches IssueAction::Finish { result: Ok(_) },
        issue_ran(
            req,
            codes,
            refresh_tokens_after(refresh_tokens_after(refresh_tokens_after(tokens, a1), a2), a3),
            again_now,
            again_issued,
            again_revoked,
            t1,
            b1,
            t2,
            b2,
            t3,
            b3,
            t4,
            b4,
        ),
    ensures
        req matches TokenRequest::RefreshToken { refresh_token, .. } && !refresh_tokens_after(
            refresh_tokens_after(refresh_tokens_after(tokens, a1), a2),
            a3,
        ).dom().contains(refresh_token@),
        b2 matches IssueAction::Finish { result: Err(x) } && x@ == oauth_error(
            ErrorKind::InvalidRequest,
            "invalid refresh token"@,
        ),
{
    if let TokenRequest::RefreshToken { refresh_token, .. } = req {
        assert(a1 is FetchRefreshToken);
        let t = refresh_token_in_store(tokens, refresh_token@);
        if t is None || t->0@.expiration < now {
            assert(a2 is Finish);
        }
        assert(a2 matches IssueAction::RevokeRefreshToken { refresh_token: k } && k@ == refresh_token@);
        assert(a3 is IssueTokens);
        assert(refresh_tokens_after(refresh_tokens_after(refresh_tokens_after(tokens, a1), a2), a3)
            =~= tokens.remove(refresh_token@));
        assert(b1 matches IssueAction::FetchRefreshToken { refresh_token: c } && c@ == refresh_token@);
    }
}

} // verus!
