use enseada::guid::Guid;
use enseada::http::error::ApiError;
use enseada::http::handler::oauth::{
    login_page_choice, login_step, LoginAction, LoginEvent, LoginPage, LoginReply, LoginState,
};
use enseada::oauth::client::Client;
use enseada::oauth::code::AuthorizationCode;
use enseada::oauth::error::{Error as OAuthError, ErrorKind};
use enseada::oauth::request::{AuthorizationRequest, ResponseType};
use enseada::oauth::response::AuthorizationResponse;
use enseada::oauth::scope::Scope;
use enseada::oauth::session::Session;

const CB: &str = "http://example.com/cb";

fn auth_request(redirect_uri: &str) -> AuthorizationRequest {
    AuthorizationRequest {
        response_type: ResponseType::Code,
        client_id: "app".to_string(),
        redirect_uri: redirect_uri.to_string(),
        scope: Scope::from("profile"),
        state: Some("xyz".to_string()),
    }
}

fn client() -> Client {
    Client::public("app".to_string(), Scope::from("profile"), vec![CB.to_string()])
}

fn granted() -> AuthorizationResponse {
    let code = AuthorizationCode::with_expiration("c0de".to_string(), Session::empty(), 5);
    AuthorizationResponse::new(code, Some("xyz".to_string()))
}

struct Answers {
    client: Option<Result<Client, OAuthError>>,
    cookie: Option<Result<Option<String>, ApiError>>,
    user: Option<Result<Option<Guid>, ApiError>>,
    cookie_set: Option<Result<(), ApiError>>,
    answer: Option<Result<AuthorizationResponse, OAuthError>>,
}

fn answers(cookie: Option<&str>, user: Option<Guid>, answer: Result<AuthorizationResponse, OAuthError>) -> Answers {
    Answers {
        client: Some(Ok(client())),
        cookie: Some(Ok(cookie.map(|s| s.to_string()))),
        user: Some(Ok(user)),
        cookie_set: Some(Ok(())),
        answer: Some(answer),
    }
}

/// Runs a login, answering each action; returns the last action and what
/// was asked for, in order.
fn run(auth: &AuthorizationRequest, credentials: Option<(&str, &str)>, mut a: Answers) -> (LoginAction, Vec<String>) {
    let credentials = credentials.map(|(u, p)| (u.to_string(), p.to_string()));
    let mut state = LoginState::Start;
    let mut event = LoginEvent::Started;
    let mut asked = Vec::new();
    loop {
        assert!(state.expects(&event));
        let (next, action) = login_step(auth, credentials.clone(), state, event);
        state = next;
        event = match action {
            LoginAction::CheckClient => {
                asked.push("check client".to_string());
                LoginEvent::ClientChecked { client: a.client.take().unwrap() }
            }
            LoginAction::ReadCookie => {
                asked.push("read cookie".to_string());
                LoginEvent::CookieRead { user_id: a.cookie.take().unwrap() }
            }
            LoginAction::FindUser { username } => {
                asked.push(format!("find {}", username));
                LoginEvent::UserFound { user: a.user.take().unwrap() }
            }
            LoginAction::AuthenticateUser { username, password } => {
                asked.push(format!("authenticate {} {}", username, password));
                LoginEvent::UserFound { user: a.user.take().unwrap() }
            }
            LoginAction::SetCookie { user_id } => {
                asked.push(format!("set cookie {}", user_id));
                LoginEvent::CookieSet { outcome: a.cookie_set.take().unwrap() }
            }
            LoginAction::Authorize { session } => {
                asked.push(format!(
                    "authorize {} {} [{}]",
                    session.client_id(),
                    session.user_id().unwrap(),
                    session.scope().to_string()
                ));
                LoginEvent::Authorized { answer: a.answer.take().unwrap() }
            }
            finished => {
                assert!(matches!(state, LoginState::Done));
                return (finished, asked);
            }
        };
    }
}

#[test]
fn login_with_cookie_grants_and_sends_back() {
    let user = Guid::partitioned("user", "bob");
    let (last, asked) = run(&auth_request(CB), None, answers(Some("bob"), Some(user), Ok(granted())));
    match last {
        LoginAction::SendBack { target, reply: LoginReply::Granted(res) } => {
            assert_eq!(target, CB);
            assert_eq!(res.state(), Some("xyz".to_string()));
        }
        other => panic!("unexpected {:?}", other),
    }
    assert_eq!(asked, vec!["check client", "read cookie", "find bob", "set cookie bob", "authorize app user:bob []"]);
}

#[test]
fn login_with_credentials_authenticates() {
    let user = Guid::partitioned("user", "bob");
    let (last, asked) = run(&auth_request(CB), Some(("bob", "pw")), answers(None, Some(user), Ok(granted())));
    assert!(matches!(last, LoginAction::SendBack { reply: LoginReply::Granted(_), .. }));
    assert_eq!(asked[2], "authenticate bob pw");
}

#[test]
fn unparsable_redirect_is_a_bad_request() {
    let (last, asked) = run(&auth_request("not a url"), Some(("bob", "pw")), answers(None, None, Ok(granted())));
    assert!(matches!(last, LoginAction::Fail { error: ApiError::BadRequest(_) }));
    assert!(asked.is_empty());
}

#[test]
fn refused_client_is_sent_back_without_user_lookup() {
    let mut a = answers(Some("bob"), None, Ok(granted()));
    a.client = Some(Err(OAuthError::new(ErrorKind::InvalidClient, "no such client".to_string())));
    let (last, asked) = run(&auth_request(CB), Some(("bob", "pw")), a);
    match last {
        LoginAction::SendBack { target, reply: LoginReply::Refused(e) } => {
            assert_eq!(target, CB);
            assert_eq!(e.kind(), &ErrorKind::InvalidClient);
        }
        other => panic!("unexpected {:?}", other),
    }
    assert_eq!(asked, vec!["check client"]);
}

#[test]
fn unknown_user_fails_authentication_and_nothing_is_authorized() {
    let (last, asked) = run(&auth_request(CB), Some(("bob", "wrong")), answers(None, None, Ok(granted())));
    assert!(matches!(last, LoginAction::Fail { error: ApiError::Unauthorized(m) } if m == "authentication failed"));
    assert!(!asked.iter().any(|a| a.starts_with("authorize") || a.starts_with("set cookie")));
}

#[test]
fn no_cookie_and_no_credentials_fails_authentication() {
    let (last, _) = run(&auth_request(CB), None, answers(None, None, Ok(granted())));
    assert!(matches!(last, LoginAction::Fail { error: ApiError::Unauthorized(m) } if m == "authentication failed"));
}

#[test]
fn refused_redirect_uri_is_a_bad_request() {
    let user = Guid::partitioned("user", "bob");
    let err = OAuthError::new(ErrorKind::InvalidRedirectUri, "bad uri".to_string());
    let (last, _) = run(&auth_request(CB), None, answers(Some("bob"), Some(user), Err(err)));
    assert!(matches!(last, LoginAction::Fail { error: ApiError::BadRequest(m) } if m == "\"invalid_redirect_uri\": bad uri"));
}

#[test]
fn other_refusal_is_sent_back() {
    let user = Guid::partitioned("user", "bob");
    let err = OAuthError::new(ErrorKind::ServerError, "store down".to_string());
    let (last, _) = run(&auth_request(CB), None, answers(Some("bob"), Some(user), Err(err)));
    assert!(matches!(last, LoginAction::SendBack { reply: LoginReply::Refused(_), .. }));
}

#[test]
fn failed_cookie_write_fails_before_authorizing() {
    let user = Guid::partitioned("user", "bob");
    let mut a = answers(Some("bob"), Some(user), Ok(granted()));
    a.cookie_set = Some(Err(ApiError::InternalServerError("cookie".to_string())));
    let (last, asked) = run(&auth_request(CB), None, a);
    assert!(matches!(last, LoginAction::Fail { error: ApiError::InternalServerError(_) }));
    assert!(!asked.iter().any(|a| a.starts_with("authorize")));
}

#[test]
fn login_page_choices() {
    assert_eq!(login_page_choice(Some("bob"), true), LoginPage::LogIn);
    assert_eq!(login_page_choice(Some("bob"), false), LoginPage::ShowForm { forget_user: true });
    assert_eq!(login_page_choice(None, false), LoginPage::ShowForm { forget_user: false });
}
