use enseada::oauth::client::Client;
use enseada::oauth::code::AuthorizationCode;
use enseada::oauth::error::ErrorKind;
use enseada::oauth::handler::{
    validation_step, BasicAuth, TokenValidation, ValidationAction, ValidationEvent,
};
use enseada::oauth::request::TokenRequest;
use enseada::oauth::scope::Scope;
use enseada::oauth::session::Session;
use enseada::oauth::token::RefreshToken;

const CB: &str = "http://example.com/cb";

fn public_client() -> Client {
    Client::public("app".to_string(), Scope::from("profile email"), vec![CB.to_string()])
}

fn confidential_client() -> Client {
    Client::confidential(
        "app".to_string(),
        "stored-hash".to_string(),
        Scope::from("profile email"),
        vec![CB.to_string()],
    )
}

fn code_for(client_id: &str, scope: &str, expiration: i128) -> AuthorizationCode {
    AuthorizationCode::with_expiration(
        "c0de".to_string(),
        Session::new(client_id.to_string(), Scope::from(scope)),
        expiration,
    )
}

fn code_request(client_id: Option<&str>, secret: Option<&str>, redirect: &str) -> TokenRequest {
    TokenRequest::AuthorizationCode {
        code: "c0de".to_string(),
        redirect_uri: redirect.to_string(),
        client_id: client_id.map(|s| s.to_string()),
        client_secret: secret.map(|s| s.to_string()),
    }
}

/// Runs the validation, answering each request from the given stores;
/// returns the final result and the number of steps taken.
fn run(
    req: &TokenRequest,
    auth: Option<&BasicAuth>,
    code: Option<AuthorizationCode>,
    token: Option<RefreshToken>,
    client: Option<Client>,
    secret_ok: Result<bool, enseada::oauth::error::Error>,
    now: i128,
) -> (Result<Client, enseada::oauth::error::Error>, usize, Vec<String>) {
    let mut state = TokenValidation::Start;
    let mut event = ValidationEvent::Started;
    let mut steps = 0;
    let mut asked = Vec::new();
    let mut code = code;
    let mut token = token;
    let mut client = client;
    let mut secret_ok = Some(secret_ok);
    loop {
        assert!(state.expects(&event));
        let (next, action) = validation_step(req, auth, state, event);
        steps += 1;
        state = next;
        event = match action {
            ValidationAction::FetchCode { code: c } => {
                asked.push(format!("code {}", c));
                ValidationEvent::CodeFetched { code: code.take(), now }
            }
            ValidationAction::FetchRefreshToken { refresh_token } => {
                asked.push(format!("refresh {}", refresh_token));
                ValidationEvent::RefreshTokenFetched { token: token.take(), now }
            }
            ValidationAction::FetchClient { client_id } => {
                asked.push(format!("client {}", client_id));
                ValidationEvent::ClientFetched { client: client.take() }
            }
            ValidationAction::CheckSecret { hash, secret } => {
                asked.push(format!("secret {} {}", hash, secret));
                ValidationEvent::SecretChecked { verified: secret_ok.take().unwrap() }
            }
            ValidationAction::Finish { result } => {
                assert!(matches!(state, TokenValidation::Done));
                return (result, steps, asked);
            }
        };
    }
}

fn ok() -> Result<bool, enseada::oauth::error::Error> {
    Ok(true)
}

#[test]
fn public_client_trades_a_code() {
    let req = code_request(Some("app"), None, CB);
    let (r, steps, asked) =
        run(&req, None, Some(code_for("app", "profile", 5000)), None, Some(public_client()), ok(), 1000);
    let c = r.unwrap();
    assert_eq!(c.client_id(), "app");
    assert_eq!(steps, 3);
    assert_eq!(asked, vec!["code c0de".to_string(), "client app".to_string()]);
}

#[test]
fn confidential_client_needs_its_secret_checked() {
    let req = code_request(Some("app"), Some("pw"), CB);
    let (r, steps, asked) =
        run(&req, None, Some(code_for("app", "profile", 5000)), None, Some(confidential_client()), ok(), 1000);
    assert_eq!(r.unwrap().client_id(), "app");
    assert_eq!(steps, 4);
    assert_eq!(asked[2], "secret stored-hash pw");
}

#[test]
fn confidential_client_with_a_wrong_secret_is_refused() {
    let req = code_request(Some("app"), Some("pw"), CB);
    let (r, _, _) = run(
        &req,
        None,
        Some(code_for("app", "profile", 5000)),
        None,
        Some(confidential_client()),
        Ok(false),
        1000,
    );
    let e = r.unwrap_err();
    assert_eq!(e.kind(), &ErrorKind::InvalidClient);
    assert_eq!(e.description(), "invalid client credentials");
}

#[test]
fn secret_checker_failure_is_passed_on() {
    let req = code_request(Some("app"), Some("pw"), CB);
    let failure = enseada::oauth::error::Error::new(ErrorKind::ServerError, "hash unreadable".to_string());
    let (r, _, _) = run(
        &req,
        None,
        Some(code_for("app", "profile", 5000)),
        None,
        Some(confidential_client()),
        Err(failure),
        1000,
    );
    let e = r.unwrap_err();
    assert_eq!(e.kind(), &ErrorKind::ServerError);
    assert_eq!(e.description(), "hash unreadable");
}

#[test]
fn confidential_client_without_secret_is_refused() {
    let req = code_request(Some("app"), None, CB);
    let (r, steps, _) =
        run(&req, None, Some(code_for("app", "profile", 5000)), None, Some(confidential_client()), ok(), 1000);
    let e = r.unwrap_err();
    assert_eq!(e.kind(), &ErrorKind::InvalidClient);
    assert_eq!(e.description(), "invalid client credentials");
    assert_eq!(steps, 3);
}

#[test]
fn basic_authentication_names_the_client_and_its_secret() {
    let req = code_request(None, None, CB);
    let auth = BasicAuth::new("app".to_string(), Some("pw".to_string()));
    let (r, _, asked) = run(
        &req,
        Some(&auth),
        Some(code_for("app", "profile", 5000)),
        None,
        Some(confidential_client()),
        ok(),
        1000,
    );
    assert!(r.is_ok());
    assert_eq!(asked[2], "secret stored-hash pw");
}

#[test]
fn request_client_id_wins_over_basic_authentication() {
    let req = code_request(Some("app"), None, CB);
    let auth = BasicAuth::new("other".to_string(), None);
    let (r, _, asked) =
        run(&req, Some(&auth), Some(code_for("app", "profile", 5000)), None, Some(public_client()), ok(), 1000);
    assert!(r.is_ok());
    assert_eq!(asked[1], "client app");
}

#[test]
fn unknown_grant_type_is_refused() {
    let (r, steps, _) = run(&TokenRequest::Unknown, None, None, None, None, ok(), 1000);
    let e = r.unwrap_err();
    assert_eq!(e.kind(), &ErrorKind::UnsupportedGrantType);
    assert_eq!(e.description(), "unsupported grant type");
    assert_eq!(steps, 1);
}

#[test]
fn missing_client_id_is_refused() {
    let req = code_request(None, None, CB);
    let (r, _, _) = run(&req, None, None, None, None, ok(), 1000);
    let e = r.unwrap_err();
    assert_eq!(e.kind(), &ErrorKind::InvalidClient);
    assert_eq!(e.description(), "invalid client_id");
}

#[test]
fn unknown_code_is_refused() {
    let req = code_request(Some("app"), None, CB);
    let (r, _, _) = run(&req, None, None, None, Some(public_client()), ok(), 1000);
    let e = r.unwrap_err();
    assert_eq!(e.kind(), &ErrorKind::InvalidRequest);
    assert_eq!(e.description(), "invalid authorization code");
}

#[test]
fn expired_code_is_refused() {
    let req = code_request(Some("app"), None, CB);
    let (r, _, _) = run(&req, None, Some(code_for("app", "profile", 999)), None, Some(public_client()), ok(), 1000);
    let e = r.unwrap_err();
    assert_eq!(e.kind(), &ErrorKind::InvalidRequest);
    assert_eq!(e.description(), "invalid authorization code");
}

#[test]
fn code_expired_half_a_second_ago_is_refused() {
    let sec: i128 = 1_000_000_000;
    let req = code_request(Some("app"), None, CB);
    let code = code_for("app", "profile", 1000 * sec);
    let (r, _, _) = run(&req, None, Some(code), None, Some(public_client()), ok(), 1000 * sec + sec / 2);
    assert_eq!(r.unwrap_err().kind(), &ErrorKind::InvalidRequest);
}

#[test]
fn code_expiring_now_is_still_good() {
    let req = code_request(Some("app"), None, CB);
    let (r, _, _) = run(&req, None, Some(code_for("app", "profile", 1000)), None, Some(public_client()), ok(), 1000);
    assert!(r.is_ok());
}

#[test]
fn code_of_another_client_is_refused() {
    let req = code_request(Some("intruder"), None, CB);
    let (r, _, _) = run(&req, None, Some(code_for("app", "profile", 5000)), None, Some(public_client()), ok(), 1000);
    let e = r.unwrap_err();
    assert_eq!(e.kind(), &ErrorKind::InvalidClient);
    assert_eq!(e.description(), "invalid client 'intruder'");
    assert_eq!(e.to_string(), "\"invalid_client\": invalid client 'intruder'");
}

#[test]
fn unknown_client_is_refused() {
    let req = code_request(Some("app"), None, CB);
    let (r, _, _) = run(&req, None, Some(code_for("app", "profile", 5000)), None, None, ok(), 1000);
    let e = r.unwrap_err();
    assert_eq!(e.kind(), &ErrorKind::InvalidClient);
    assert_eq!(e.description(), "invalid client_id");
}

#[test]
fn scope_beyond_the_client_is_refused() {
    let req = code_request(Some("app"), None, CB);
    let (r, _, _) = run(&req, None, Some(code_for("app", "admin", 5000)), None, Some(public_client()), ok(), 1000);
    let e = r.unwrap_err();
    assert_eq!(e.kind(), &ErrorKind::InvalidScope);
    assert_eq!(e.description(), "invalid scopes");
}

#[test]
fn foreign_redirect_uri_is_refused() {
    let req = code_request(Some("app"), None, "http://evil.example.org/cb");
    let (r, _, _) = run(&req, None, Some(code_for("app", "profile", 5000)), None, Some(public_client()), ok(), 1000);
    let e = r.unwrap_err();
    assert_eq!(e.kind(), &ErrorKind::InvalidRedirectUri);
    assert_eq!(e.description(), "invalid redirect URI");
}

#[test]
fn malformed_redirect_uri_is_refused_with_the_parser_message() {
    let req = code_request(Some("app"), None, "not a url");
    let (r, _, _) = run(&req, None, Some(code_for("app", "profile", 5000)), None, Some(public_client()), ok(), 1000);
    let e = r.unwrap_err();
    assert_eq!(e.kind(), &ErrorKind::InvalidRedirectUri);
    assert_eq!(e.description(), "relative URL without a base");
}

#[test]
fn redirect_uri_is_compared_once_parsed() {
    let req = code_request(Some("app"), None, "HTTP://EXAMPLE.COM/cb");
    let (r, _, _) = run(&req, None, Some(code_for("app", "profile", 5000)), None, Some(public_client()), ok(), 1000);
    assert!(r.is_ok());
}

fn refresh_token(client_id: &str, scope: &str, expiration: i128) -> RefreshToken {
    RefreshToken::with_expiration(
        Some("r3fresh".to_string()),
        Session::new(client_id.to_string(), Scope::from(scope)),
        expiration,
    )
}

fn refresh_request(scope: Option<&str>) -> TokenRequest {
    TokenRequest::RefreshToken {
        refresh_token: "r3fresh".to_string(),
        scope: scope.map(Scope::from),
        client_id: Some("app".to_string()),
        client_secret: None,
    }
}

#[test]
fn refresh_token_with_a_narrower_scope_is_granted() {
    let req = refresh_request(Some("profile"));
    let (r, steps, asked) =
        run(&req, None, None, Some(refresh_token("app", "profile email", 5000)), Some(public_client()), ok(), 1000);
    assert!(r.is_ok());
    assert_eq!(steps, 3);
    assert_eq!(asked[0], "refresh r3fresh");
}

#[test]
fn refresh_token_with_a_wider_scope_is_refused() {
    let req = refresh_request(Some("profile admin"));
    let (r, _, _) =
        run(&req, None, None, Some(refresh_token("app", "profile email", 5000)), Some(public_client()), ok(), 1000);
    let e = r.unwrap_err();
    assert_eq!(e.kind(), &ErrorKind::InvalidScope);
    assert_eq!(e.description(), "invalid scope");
}

#[test]
fn expired_refresh_token_is_refused() {
    let req = refresh_request(None);
    let (r, _, _) =
        run(&req, None, None, Some(refresh_token("app", "profile", 10)), Some(public_client()), ok(), 1000);
    let e = r.unwrap_err();
    assert_eq!(e.kind(), &ErrorKind::UnsupportedGrantType);
    assert_eq!(e.description(), "invalid refresh token");
}

#[test]
fn unknown_refresh_token_is_refused() {
    let req = refresh_request(None);
    let (r, _, _) = run(&req, None, None, None, Some(public_client()), ok(), 1000);
    let e = r.unwrap_err();
    assert_eq!(e.kind(), &ErrorKind::InvalidRequest);
    assert_eq!(e.description(), "invalid refresh token");
}

#[test]
fn refresh_token_of_another_client_is_refused() {
    let req = refresh_request(None);
    let (r, _, _) =
        run(&req, None, None, Some(refresh_token("other", "profile", 5000)), Some(public_client()), ok(), 1000);
    let e = r.unwrap_err();
    assert_eq!(e.kind(), &ErrorKind::InvalidClient);
    assert_eq!(e.description(), "invalid client_id");
}

#[test]
fn done_validation_expects_nothing() {
    let done = TokenValidation::Done;
    assert!(!done.expects(&ValidationEvent::Started));
    assert!(TokenValidation::Start.expects(&ValidationEvent::Started));
    assert!(!TokenValidation::Start.expects(&ValidationEvent::ClientFetched { client: None }));
}
