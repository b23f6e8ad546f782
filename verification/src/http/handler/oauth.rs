//! The decisions of the login and authorization pages.

use vstd::prelude::*;
use vstd::string::*;

use crate::guid::{guid_text, Guid};
use crate::http::error::{ApiError, ApiErrorView};
use crate::links::{parse_url, url_parse};
use crate::oauth::client::Client;
use crate::oauth::error::{error_text, Error as OAuthError, ErrorKind, ErrorView};
use crate::oauth::request::AuthorizationRequest;
use crate::oauth::response::AuthorizationResponse;
use crate::oauth::session::{Session, SessionView};
use crate::text::join_with;

verus! {

/// The login form as posted: the user's credentials and the authorization
/// request they answer.
#[derive(Debug)]
pub struct LoginFormBody {
    pub username: String,
    pub password: String,
    pub auth_request: AuthorizationRequest,
}

/// The fields of the login page, carrying the authorization request along.
#[derive(Debug)]
pub struct LoginForm {
    pub response_type: String,
    pub client_id: String,
    pub redirect_uri: String,
    pub scope: String,
    pub state: String,
}

/// The login page for an authorization request: its fields as text, the
/// scope's words separated by spaces, and an empty state when it has none.
pub fn login_form_for(auth: &AuthorizationRequest) -> (r: LoginForm)
    ensures
        r.response_type@ == "code"@,
        r.client_id@ == auth.client_id@,
        r.redirect_uri@ == auth.redirect_uri@,
        r.scope@ == join_with(auth.scope@, " "@),
        r.state@ == match auth.state {
            Some(s) => s@,
            None => Seq::<char>::empty(),
        },
{
    LoginForm {
        response_type: auth.response_type.to_string(),
        client_id: auth.client_id.clone(),
        redirect_uri: auth.redirect_uri.clone(),
        scope: auth.scope.to_string(),
        state: match &auth.state {
            Some(s) => s.clone(),
            None => String::new(),
        },
    }
}

/// Where a login sends the user back: the client's redirect URI as the URL
/// parser writes it; a bad request when it is no URL.
pub fn redirect_target(redirect_uri: &str) -> (r: Result<String, ApiError>)
    ensures
        match url_parse(redirect_uri@) {
            Ok(u) => r matches Ok(x) && x@ == u,
            Err(m) => r matches Err(e) && e@ == ApiErrorView::BadRequest(m),
        },
{
    match parse_url(redirect_uri) {
        Ok(u) => Ok(u),
        Err(m) => Err(ApiError::from_parse_error(m)),
    }
}

/// The answer to a login whose user could not be authenticated.
pub fn authentication_failed() -> (r: ApiError)
    ensures
        r@ == ApiErrorView::Unauthorized("authentication failed"@),
{
    ApiError::Unauthorized(String::from_str("authentication failed"))
}

/// What becomes of an authorization that the server refused: a refused
/// redirect URI is answered as a bad request, since the user cannot be sent
/// back there; any other error is sent back to the client (`Ok`).
pub fn refused_authorization(err: OAuthError) -> (r: Result<OAuthError, ApiError>)
    ensures
        if err@.kind == ErrorKind::InvalidRedirectUri {
            r matches Err(e) && e@ == ApiErrorView::BadRequest(error_text(err@))
        } else {
            r matches Ok(e) && e@ == err@
        },
{
    if *err.kind() == ErrorKind::InvalidRedirectUri {
        Err(ApiError::BadRequest(err.to_string()))
    } else {
        Ok(err)
    }
}

/// What the login page does.
#[derive(Debug, PartialEq, Eq, Structural)]
pub enum LoginPage {
    /// Log the user of the session cookie in at once.
    LogIn,
    /// Show the login form; first forget the cookie's user when it names one
    /// that does not exist.
    ShowForm { forget_user: bool },
}

/// What the login page does, given the user named by the session cookie (if
/// any) and whether that user was found: a known user is logged in at once;
/// otherwise the form is shown, and the cookie's user is forgotten when it
/// named one that was not found.
pub fn login_page_choice(cookie_user: Option<&str>, user_found: bool) -> (r: LoginPage)
    ensures
        r == match cookie_user {
            Some(_) => if user_found {
                LoginPage::LogIn
            } else {
                LoginPage::ShowForm { forget_user: true }
            },
            None => LoginPage::ShowForm { forget_user: false },
        },
{
    match cookie_user {
        Some(_) => if user_found {
            LoginPage::LogIn
        } else {
            LoginPage::ShowForm { forget_user: true }
        },
        None => LoginPage::ShowForm { forget_user: false },
    }
}

/// Where a login stands.
#[derive(Debug)]
pub enum LoginState {
    /// Nothing done yet.
    Start,
    /// The request's client is being checked; the user is sent back to
    /// `target`, the redirect URI as the URL parser writes it.
    CheckingClient { target: String },
    /// The user named by the session cookie is being read.
    ReadingCookie { target: String, client_id: String },
    /// The user is being looked up, by the cookie's name or by the
    /// credentials.
    FindingUser { target: String, client_id: String },
    /// The session cookie is being set to this user.
    SettingCookie { target: String, client_id: String, user: Guid },
    /// The request is being granted.
    Authorizing { target: String },
    /// Finished.
    Done,
}

/// What a login is told.
#[derive(Debug)]
pub enum LoginEvent {
    /// The login begins.
    Started,
    /// The client that the request names, or why the request is refused.
    ClientChecked { client: Result<Client, OAuthError> },
    /// The user name in the session cookie, if any.
    CookieRead { user_id: Result<Option<String>, ApiError> },
    /// The user found, if any.
    UserFound { user: Result<Option<Guid>, ApiError> },
    /// Whether the session cookie was set.
    CookieSet { outcome: Result<(), ApiError> },
    /// The answer that grants the request, or why it was refused.
    Authorized { answer: Result<AuthorizationResponse, OAuthError> },
}

/// What a login sends back to the client.
#[derive(Debug)]
pub enum LoginReply {
    /// The request is granted.
    Granted(AuthorizationResponse),
    /// The request is refused.
    Refused(OAuthError),
}

/// What a login asks for next.
#[derive(Debug)]
pub enum LoginAction {
    /// Check the request's client.
    CheckClient,
    /// Read the user name in the session cookie.
    ReadCookie,
    /// Look the named user up.
    FindUser { username: String },
    /// Authenticate the user by name and password.
    AuthenticateUser { username: String, password: String },
    /// Set the session cookie to this user id.
    SetCookie { user_id: String },
    /// Grant the request for this session.
    Authorize { session: Session },
    /// The login is over: send the user back to the client with the reply.
    SendBack { target: String, reply: LoginReply },
    /// The login is over: answer with this error.
    Fail { error: ApiError },
}

/// Whether the login in `state` waits for `event`.
pub open spec fn login_expects(state: LoginState, event: LoginEvent) -> bool {
    match state {
        LoginState::Start => event is Started,
        LoginState::CheckingClient { .. } => event is ClientChecked,
        LoginState::ReadingCookie { .. } => event is CookieRead,
        LoginState::FindingUser { .. } => event is UserFound,
        LoginState::SettingCookie { .. } => event is CookieSet,
        LoginState::Authorizing { .. } => event is Authorized,
        LoginState::Done => false,
    }
}

/// The login is over, answering with `e`.
pub open spec fn login_fails(next: LoginState, action: LoginAction, e: ApiErrorView) -> bool {
    &&& next is Done
    &&& action matches LoginAction::Fail { error } && error@ == e
}

/// The login is over, sending the user back to `target` with the refusal `e`.
pub open spec fn login_refuses(next: LoginState, action: LoginAction, target: Seq<char>, e: ErrorView) -> bool {
    &&& next is Done
    &&& action matches LoginAction::SendBack { target: t, reply: LoginReply::Refused(x) } && t@ == target && x@ == e
}

/// The answer when no user can be authenticated.
pub open spec fn authentication_failure() -> ApiErrorView {
    ApiErrorView::Unauthorized("authentication failed"@)
}

/// Where a login goes from `state` on `event`, as `(next, action)`: the
/// redirect URI is read first; then the client is checked; then the user
/// is found, by the session cookie or else by the credentials; then the
/// cookie is set; and only then is the request granted.
pub open spec fn login_outcome(
    auth: AuthorizationRequest,
    credentials: Option<(Seq<char>, Seq<char>)>,
    state: LoginState,
    event: LoginEvent,
    next: LoginState,
    action: LoginAction,
) -> bool {
    match state {
        LoginState::Start => match url_parse(auth.redirect_uri@) {
            Err(m) => login_fails(next, action, ApiErrorView::BadRequest(m)),
            Ok(u) => {
                &&& next matches LoginState::CheckingClient { target } && target@ == u
                &&& action is CheckClient
            },
        },
        LoginState::CheckingClient { target } => match event {
            LoginEvent::ClientChecked { client } => match client {
                Err(e) => login_refuses(next, action, target@, e@),
                Ok(c) => {
                    &&& next matches LoginState::ReadingCookie { target: t, client_id } && t@ == target@
                        && client_id@ == c@.client_id
                    &&& action is ReadCookie
                },
            },
            _ => true,
        },
        LoginState::ReadingCookie { target, client_id } => match event {
            LoginEvent::CookieRead { user_id } => match user_id {
                Err(e) => login_fails(next, action, e@),
                Ok(Some(name)) => {
                    &&& next matches LoginState::FindingUser { target: t, client_id: c } && t@ == target@
                        && c@ == client_id@
                    &&& action matches LoginAction::FindUser { username } && username@ == name@
                },
                Ok(None) => match credentials {
                    Some((u, p)) => {
                        &&& next matches LoginState::FindingUser { target: t, client_id: c } && t@ == target@
                            && c@ == client_id@
                        &&& action matches LoginAction::AuthenticateUser { username, password } && username@ == u
                            && password@ == p
                    },
                    None => login_fails(next, action, authentication_failure()),
                },
            },
            _ => true,
        },
        LoginState::FindingUser { target, client_id } => match event {
            LoginEvent::UserFound { user } => match user {
                Err(e) => login_fails(next, action, e@),
                Ok(None) => login_fails(next, action, authentication_failure()),
                Ok(Some(g)) => {
                    &&& next matches LoginState::SettingCookie { target: t, client_id: c, user: x } && t@ == target@
                        && c@ == client_id@ && x@ == g@
                    &&& action matches LoginAction::SetCookie { user_id } && user_id@ == g@.id
                },
            },
            _ => true,
        },
        LoginState::SettingCookie { target, client_id, user } => match event {
            LoginEvent::CookieSet { outcome } => match outcome {
                Err(e) => login_fails(next, action, e@),
                Ok(()) => {
                    &&& next matches LoginState::Authorizing { target: t } && t@ == target@
                    &&& action matches LoginAction::Authorize { session } && session@ == (SessionView {
                        client_id: client_id@,
                        scope: Seq::empty(),
                        user_id: Some(guid_text(user@)),
                    })
                },
            },
            _ => true,
        },
        LoginState::Authorizing { target } => match event {
            LoginEvent::Authorized { answer } => match answer {
                Ok(res) => {
                    &&& next is Done
                    &&& action matches LoginAction::SendBack { target: t, reply: LoginReply::Granted(x) } && t@
                        == target@ && x == res
                },
                Err(e) => if e@.kind == ErrorKind::InvalidRedirectUri {
                    login_fails(next, action, ApiErrorView::BadRequest(error_text(e@)))
                } else {
                    login_refuses(next, action, target@, e@)
                },
            },
            _ => true,
        },
        LoginState::Done => true,
    }
}

impl LoginState {
    /// Whether the login waits for `event`.
    pub fn expects(&self, event: &LoginEvent) -> (r: bool)
        ensures
            r == login_expects(*self, *event),
    {
        match (self, event) {
            (LoginState::Start, LoginEvent::Started) => true,
            (LoginState::CheckingClient { .. }, LoginEvent::ClientChecked { .. }) => true,
            (LoginState::ReadingCookie { .. }, LoginEvent::CookieRead { .. }) => true,
            (LoginState::FindingUser { .. }, LoginEvent::UserFound { .. }) => true,
            (LoginState::SettingCookie { .. }, LoginEvent::CookieSet { .. }) => true,
            (LoginState::Authorizing { .. }, LoginEvent::Authorized { .. }) => true,
            _ => false,
        }
    }
}

/// One step of a login to the authorization server, for the authorization
/// request `auth` and the posted credentials (name and password), if any:
/// from where it stands and what it is told, where it stands next and what
/// it asks for.
pub fn login_step(
    auth: &AuthorizationRequest,
    credentials: Option<(String, String)>,
    state: LoginState,
    event: LoginEvent,
) -> (r: (LoginState, LoginAction))
    requires
        login_expects(state, event),
    ensures
        login_outcome(*auth, credentials.deep_view(), state, event, r.0, r.1),
{
    let unexpected = ApiError::InternalServerError(String::new());
    match state {
        LoginState::Start => match redirect_target(auth.redirect_uri.as_str()) {
            Err(error) => (LoginState::Done, LoginAction::Fail { error }),
            Ok(target) => (LoginState::CheckingClient { target }, LoginAction::CheckClient),
        },
        LoginState::CheckingClient { target } => match event {
            LoginEvent::ClientChecked { client } => match client {
                Err(e) => (LoginState::Done, LoginAction::SendBack { target, reply: LoginReply::Refused(e) }),
                Ok(client) => {
                    let client_id = client.client_id().clone();
                    (LoginState::ReadingCookie { target, client_id }, LoginAction::ReadCookie)
                },
            },
            _ => (LoginState::Done, LoginAction::Fail { error: unexpected }),
        },
        LoginState::ReadingCookie { target, client_id } => match event {
            LoginEvent::CookieRead { user_id } => match user_id {
                Err(error) => (LoginState::Done, LoginAction::Fail { error }),
                Ok(Some(username)) => (LoginState::FindingUser { target, client_id }, LoginAction::FindUser { username }),
                Ok(None) => match credentials {
                    Some((username, password)) => (
                        LoginState::FindingUser { target, client_id },
                        LoginAction::AuthenticateUser { username, password },
                    ),
                    None => (LoginState::Done, LoginAction::Fail { error: authentication_failed() }),
                },
            },
            _ => (LoginState::Done, LoginAction::Fail { error: unexpected }),
        },
        LoginState::FindingUser { target, client_id } => match event {
            LoginEvent::UserFound { user } => match user {
                Err(error) => (LoginState::Done, LoginAction::Fail { error }),
                Ok(None) => (LoginState::Done, LoginAction::Fail { error: authentication_failed() }),
                Ok(Some(user)) => {
                    let user_id = user.id().to_string();
                    (LoginState::SettingCookie { target, client_id, user }, LoginAction::SetCookie { user_id })
                },
            },
            _ => (LoginState::Done, LoginAction::Fail { error: unexpected }),
        },
        LoginState::SettingCookie { target, client_id, user } => match event {
            LoginEvent::CookieSet { outcome } => match outcome {
                Err(error) => (LoginState::Done, LoginAction::Fail { error }),
                Ok(()) => {
                    let mut session = Session::for_client(client_id);
                    session.set_user_id(user.to_string());
                    (LoginState::Authorizing { target }, LoginAction::Authorize { session })
                },
            },
            _ => (LoginState::Done, LoginAction::Fail { error: unexpected }),
        },
        LoginState::Authorizing { target } => match event {
            LoginEvent::Authorized { answer } => match answer {
                Ok(res) => (LoginState::Done, LoginAction::SendBack { target, reply: LoginReply::Granted(res) }),
                Err(e) => match refused_authorization(e) {
                    Ok(e) => (LoginState::Done, LoginAction::SendBack { target, reply: LoginReply::Refused(e) }),
                    Err(error) => (LoginState::Done, LoginAction::Fail { error }),
                },
            },
            _ => (LoginState::Done, LoginAction::Fail { error: unexpected }),
        },
        LoginState::Done => (LoginState::Done, LoginAction::Fail { error: unexpected }),
    }
}

/// The login is over.
pub open spec fn login_finishes(action: LoginAction) -> bool {
    action is SendBack || action is Fail
}

/// How many steps the login has left at most from `state`.
pub open spec fn login_steps_left(state: LoginState) -> nat {
    match state {
        LoginState::Start => 6,
        LoginState::CheckingClient { .. } => 5,
        LoginState::ReadingCookie { .. } => 4,
        LoginState::FindingUser { .. } => 3,
        LoginState::SettingCookie { .. } => 2,
        LoginState::Authorizing { .. } => 1,
        LoginState::Done => 0,
    }
}

/// Every step of a login moves it closer to its end, so it is over after
/// at most six steps; and it asks for nothing more exactly when it is done.
pub proof fn lemma_login_progresses(
    auth: AuthorizationRequest,
    credentials: Option<(Seq<char>, Seq<char>)>,
    state: LoginState,
    event: LoginEvent,
    next: LoginState,
    action: LoginAction,
)
    requires
        login_expects(state, event),
        login_outcome(auth, credentials, state, event, next, action),
    ensures
        login_steps_left(next) < login_steps_left(state),
        (next is Done) <==> login_finishes(action),
{
}

/// The order of a login: the session cookie is read only once the client
/// was accepted; a user is looked up only then; the cookie is set only for
/// a user found; the request is granted only once the cookie was set; and
/// the user is sent back with a grant only when the request was granted.
pub proof fn lemma_login_order(
    auth: AuthorizationRequest,
    credentials: Option<(Seq<char>, Seq<char>)>,
    state: LoginState,
    event: LoginEvent,
    next: LoginState,
    action: LoginAction,
)
    requires
        login_expects(state, event),
        login_outcome(auth, credentials, state, event, next, action),
    ensures
        action is ReadCookie ==> state is CheckingClient && event matches LoginEvent::ClientChecked {
            client: Ok(_),
        },
        action is FindUser || action is AuthenticateUser ==> state is ReadingCookie
            && event matches LoginEvent::CookieRead { user_id: Ok(_) },
        action is SetCookie ==> state is FindingUser && event matches LoginEvent::UserFound { user: Ok(Some(_)) },
        action is Authorize ==> state is SettingCookie && event matches LoginEvent::CookieSet { outcome: Ok(()) },
        action matches LoginAction::SendBack { reply: LoginReply::Granted(_), .. } ==> state is Authorizing
            && event matches LoginEvent::Authorized { answer: Ok(_) },
{
}

/// What the outside answers to an action of a login.
pub open spec fn login_answer(
    action: LoginAction,
    client: Result<Client, OAuthError>,
    cookie: Result<Option<String>, ApiError>,
    user: Result<Option<Guid>, ApiError>,
    cookie_set: Result<(), ApiError>,
    answer: Result<AuthorizationResponse, OAuthError>,
) -> LoginEvent {
    match action {
        LoginAction::CheckClient => LoginEvent::ClientChecked { client },
        LoginAction::ReadCookie => LoginEvent::CookieRead { user_id: cookie },
        LoginAction::FindUser { .. } => LoginEvent::UserFound { user },
        LoginAction::AuthenticateUser { .. } => LoginEvent::UserFound { user },
        LoginAction::SetCookie { .. } => LoginEvent::CookieSet { outcome: cookie_set },
        LoginAction::Authorize { .. } => LoginEvent::Authorized { answer },
        _ => LoginEvent::Started,
    }
}

/// How a whole login ends, given what the outside answers: a bad request
/// for a redirect URI that is no URL; the user sent back with the refusal
/// when the client is refused; the failure to read the cookie, to find or
/// authenticate a user (`Unauthorized("authentication failed")` when there
/// is none) or to set the cookie; else the user sent back with the grant,
/// or with its refusal, but for a refused redirect URI, a bad request.
pub open spec fn login_result(
    auth: AuthorizationRequest,
    credentials: Option<(Seq<char>, Seq<char>)>,
    client: Result<Client, OAuthError>,
    cookie: Result<Option<String>, ApiError>,
    user: Result<Option<Guid>, ApiError>,
    cookie_set: Result<(), ApiError>,
    answer: Result<AuthorizationResponse, OAuthError>,
    last: LoginAction,
) -> bool {
    match url_parse(auth.redirect_uri@) {
        Err(m) => last matches LoginAction::Fail { error } && error@ == ApiErrorView::BadRequest(m),
        Ok(u) => match client {
            Err(e) => last matches LoginAction::SendBack { target, reply: LoginReply::Refused(x) } && target@ == u
                && x@ == e@,
            Ok(_) => match cookie {
                Err(e) => last matches LoginAction::Fail { error } && error@ == e@,
                Ok(name) => if name is None && credentials is None {
                    last matches LoginAction::Fail { error } && error@ == authentication_failure()
                } else {
                    match user {
                        Err(e) => last matches LoginAction::Fail { error } && error@ == e@,
                        Ok(None) => last matches LoginAction::Fail { error } && error@ == authentication_failure(),
                        Ok(Some(_)) => match cookie_set {
                            Err(e) => last matches LoginAction::Fail { error } && error@ == e@,
                            Ok(()) => match answer {
                                Ok(res) => last matches LoginAction::SendBack {
                                    target,
                                    reply: LoginReply::Granted(x),
                                } && target@ == u && x == res,
                                Err(e) => if e@.kind == ErrorKind::InvalidRedirectUri {
                                    last matches LoginAction::Fail { error } && error@ == ApiErrorView::BadRequest(
                                        error_text(e@),
                                    )
                                } else {
                                    last matches LoginAction::SendBack { target, reply: LoginReply::Refused(x) }
                                        && target@ == u && x@ == e@
                                },
                            },
                        },
                    }
                },
            },
        },
    }
}

/// The request was granted, by `a5`, after `a4` set the session cookie to
/// the id of the user found, for a session of the accepted client and that
/// user.
pub open spec fn authorized_after_cookie(
    client: Result<Client, OAuthError>,
    user: Result<Option<Guid>, ApiError>,
    cookie_set: Result<(), ApiError>,
    a4: LoginAction,
    a5: LoginAction,
) -> bool {
    match (client, user) {
        (Ok(c), Ok(Some(g))) => {
            &&& cookie_set is Ok
            &&& a4 matches LoginAction::SetCookie { user_id } && user_id@ == g@.id
            &&& a5 matches LoginAction::Authorize { session } && session@ == (SessionView {
                client_id: c@.client_id,
                scope: Seq::empty(),
                user_id: Some(guid_text(g@)),
            })
        },
        _ => false,
    }
}

/// Running a login from its start, answering each action from the outside,
/// ends (within six steps) as `login_result` says; the request is granted
/// only at the fifth step, after the session cookie was set to the user
/// found, for a session of the accepted client and that user.
pub proof fn lemma_login_run(
    auth: AuthorizationRequest,
    credentials: Option<(Seq<char>, Seq<char>)>,
    client: Result<Client, OAuthError>,
    cookie: Result<Option<String>, ApiError>,
    user: Result<Option<Guid>, ApiError>,
    cookie_set: Result<(), ApiError>,
    answer: Result<AuthorizationResponse, OAuthError>,
    s1: LoginState,
    a1: LoginAction,
    s2: LoginState,
    a2: LoginAction,
    s3: LoginState,
    a3: LoginAction,
    s4: LoginState,
    a4: LoginAction,
    s5: LoginState,
    a5: LoginAction,
    s6: LoginState,
    a6: LoginAction,
)
    requires
        login_outcome(auth, credentials, LoginState::Start, LoginEvent::Started, s1, a1),
        !login_finishes(a1) ==> login_outcome(
            auth,
            credentials,
            s1,
            login_answer(a1, client, cookie, user, cookie_set, answer),
            s2,
            a2,
        ),
        !login_finishes(a1) && !login_finishes(a2) ==> login_outcome(
            auth,
            credentials,
            s2,
            login_answer(a2, client, cookie, user, cookie_set, answer),
            s3,
            a3,
        ),
        !login_finishes(a1) && !login_finishes(a2) && !login_finishes(a3) ==> login_outcome(
            auth,
            credentials,
            s3,
            login_answer(a3, client, cookie, user, cookie_set, answer),
            s4,
            a4,
        ),
        !login_finishes(a1) && !login_finishes(a2) && !login_finishes(a3) && !login_finishes(a4)
            ==> login_outcome(auth, credentials, s4, login_answer(a4, client, cookie, user, cookie_set, answer), s5, a5),
        !login_finishes(a1) && !login_finishes(a2) && !login_finishes(a3) && !login_finishes(a4)
            && !login_finishes(a5) ==> login_outcome(
            auth,
            credentials,
            s5,
            login_answer(a5, client, cookie, user, cookie_set, answer),
            s6,
            a6,
        ),
    ensures
        ({
            let last = if login_finishes(a1) {
                a1
            } else if login_finishes(a2) {
                a2
            } else if login_finishes(a3) {
                a3
            } else if login_finishes(a4) {
                a4
            } else if login_finishes(a5) {
                a5
            } else {
                a6
            };
            login_result(auth, credentials, client, cookie, user, cookie_set, answer, last)
        }),
        !(a1 is Authorize),
        !login_finishes(a1) ==> !(a2 is Authorize),
        !login_finishes(a1) && !login_finishes(a2) ==> !(a3 is Authorize),
        !login_finishes(a1) && !login_finishes(a2) && !login_finishes(a3) ==> !(a4 is Authorize),
        !login_finishes(a1) && !login_finishes(a2) && !login_finishes(a3) && !login_finishes(a4)
            && a5 is Authorize ==> authorized_after_cookie(client, user, cookie_set, a4, a5),
{
    if url_parse(auth.redirect_uri@) is Ok {
        assert(s1 is CheckingClient && a1 is CheckClient);
        if client is Ok {
            assert(s2 is ReadingCookie && a2 is ReadCookie);
            if cookie matches Ok(name) && !(name is None && credentials is None) {
                assert(s3 is FindingUser);
                assert(a3 is FindUser || a3 is AuthenticateUser);
                if user matches Ok(Some(g)) {
                    assert(s4 is SettingCookie && a4 is SetCookie);
                    if cookie_set is Ok {
                        assert(s5 is Authorizing && a5 is Authorize);
                    }
                }
            }
        }
    }
}

} // verus!
