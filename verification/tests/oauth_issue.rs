use enseada::oauth::code::AuthorizationCode;
use enseada::oauth::error::{Error, ErrorKind};
use enseada::oauth::handler::{issue_step, IssueAction, IssueEvent, TokenIssue};
use enseada::oauth::request::TokenRequest;
use enseada::oauth::response::{TokenResponse, TokenType};
use enseada::oauth::scope::Scope;
use enseada::oauth::session::Session;
use enseada::oauth::token::RefreshToken;

fn session(scope: &str) -> Session {
    Session::new("app".to_string(), Scope::from(scope))
}

fn response(text: &str) -> TokenResponse {
    TokenResponse {
        access_token: text.to_string(),
        token_type: TokenType::Bearer,
        expires_in: 300,
        refresh_token: Some("rt".to_string()),
        scope: Scope::from("profile"),
    }
}

fn code_request() -> TokenRequest {
    TokenRequest::AuthorizationCode {
        code: "c0de".to_string(),
        redirect_uri: "http://example.com/cb".to_string(),
        client_id: Some("app".to_string()),
        client_secret: None,
    }
}

fn refresh_request() -> TokenRequest {
    TokenRequest::RefreshToken {
        refresh_token: "r3fresh".to_string(),
        scope: None,
        client_id: None,
        client_secret: None,
    }
}

/// Runs the trading, answering each request from the given stores; returns
/// the result and what was asked for, in order.
fn run(
    req: &TokenRequest,
    code: Option<AuthorizationCode>,
    token: Option<RefreshToken>,
    now: i128,
    issued: Result<TokenResponse, Error>,
    revoked: Result<(), Error>,
) -> (Result<TokenResponse, Error>, Vec<String>) {
    let mut state = TokenIssue::Start;
    let mut event = IssueEvent::Started;
    let mut asked = Vec::new();
    let mut code = code;
    let mut token = token;
    let mut issued = Some(issued);
    let mut revoked = Some(revoked);
    loop {
        assert!(state.expects(&event));
        let (next, action) = issue_step(req, state, event);
        state = next;
        event = match action {
            IssueAction::FetchCode { code: c } => {
                asked.push(format!("fetch code {}", c));
                IssueEvent::CodeFetched { code: code.take() }
            }
            IssueAction::FetchRefreshToken { refresh_token } => {
                asked.push(format!("fetch refresh {}", refresh_token));
                IssueEvent::RefreshTokenFetched { token: token.take(), now }
            }
            IssueAction::IssueTokens { session } => {
                asked.push(format!("issue for {} {}", session.client_id(), session.scope().to_string()));
                IssueEvent::TokensIssued { result: issued.take().unwrap() }
            }
            IssueAction::RevokeCode { code: c } => {
                asked.push(format!("revoke code {}", c));
                IssueEvent::Revoked { outcome: revoked.take().unwrap() }
            }
            IssueAction::RevokeRefreshToken { refresh_token } => {
                asked.push(format!("revoke refresh {}", refresh_token));
                IssueEvent::Revoked { outcome: revoked.take().unwrap() }
            }
            IssueAction::Finish { result } => {
                assert!(matches!(state, TokenIssue::Done));
                return (result, asked);
            }
        };
    }
}

fn server_error() -> Error {
    Error::new(ErrorKind::ServerError, "store down".to_string())
}

#[test]
fn code_is_traded_then_revoked() {
    let code = AuthorizationCode::with_expiration("c0de".to_string(), session("profile email"), 2000);
    let (result, asked) = run(&code_request(), Some(code), None, 1000, Ok(response("at")), Ok(()));
    assert_eq!(result.unwrap().access_token, "at");
    assert_eq!(asked, vec!["fetch code c0de", "issue for app profile email", "revoke code c0de"]);
}

#[test]
fn missing_code_is_an_invalid_request() {
    let (result, asked) = run(&code_request(), None, None, 1000, Ok(response("at")), Ok(()));
    let err = result.unwrap_err();
    assert_eq!(err.kind(), &ErrorKind::InvalidRequest);
    assert_eq!(err.description(), "invalid authorization code");
    assert_eq!(asked, vec!["fetch code c0de"]);
}

#[test]
fn failed_issue_keeps_the_code() {
    let code = AuthorizationCode::with_expiration("c0de".to_string(), session("profile"), 2000);
    let (result, asked) = run(&code_request(), Some(code), None, 1000, Err(server_error()), Ok(()));
    assert_eq!(result.unwrap_err().description(), "store down");
    assert_eq!(asked, vec!["fetch code c0de", "issue for app profile"]);
}

#[test]
fn failed_code_revocation_refuses_the_tokens() {
    let code = AuthorizationCode::with_expiration("c0de".to_string(), session("profile"), 2000);
    let (result, _) = run(&code_request(), Some(code), None, 1000, Ok(response("at")), Err(server_error()));
    assert_eq!(result.unwrap_err().kind(), &ErrorKind::ServerError);
}

#[test]
fn refresh_token_is_revoked_then_traded() {
    let token = RefreshToken::with_expiration(Some("r3fresh".to_string()), session("profile"), 2000);
    let (result, asked) = run(&refresh_request(), None, Some(token), 1000, Ok(response("new")), Ok(()));
    assert_eq!(result.unwrap().access_token, "new");
    assert_eq!(asked, vec!["fetch refresh r3fresh", "revoke refresh r3fresh", "issue for app profile"]);
}

#[test]
fn expired_refresh_token_is_an_unsupported_grant() {
    let token = RefreshToken::with_expiration(Some("r3fresh".to_string()), session("profile"), 999);
    let (result, asked) = run(&refresh_request(), None, Some(token), 1000, Ok(response("new")), Ok(()));
    let err = result.unwrap_err();
    assert_eq!(err.kind(), &ErrorKind::UnsupportedGrantType);
    assert_eq!(err.description(), "invalid refresh token");
    assert_eq!(asked, vec!["fetch refresh r3fresh"]);
}

#[test]
fn refresh_token_expiring_now_is_still_traded() {
    let token = RefreshToken::with_expiration(Some("r3fresh".to_string()), session("profile"), 1000);
    let (result, _) = run(&refresh_request(), None, Some(token), 1000, Ok(response("new")), Ok(()));
    assert!(result.is_ok());
}

#[test]
fn missing_refresh_token_is_an_invalid_request() {
    let (result, _) = run(&refresh_request(), None, None, 1000, Ok(response("new")), Ok(()));
    let err = result.unwrap_err();
    assert_eq!(err.kind(), &ErrorKind::InvalidRequest);
    assert_eq!(err.description(), "invalid refresh token");
}

#[test]
fn failed_refresh_revocation_issues_nothing() {
    let token = RefreshToken::with_expiration(Some("r3fresh".to_string()), session("profile"), 2000);
    let (result, asked) = run(&refresh_request(), None, Some(token), 1000, Ok(response("new")), Err(server_error()));
    assert!(result.is_err());
    assert_eq!(asked, vec!["fetch refresh r3fresh", "revoke refresh r3fresh"]);
}

#[test]
fn unknown_grant_is_refused_at_once() {
    let (result, asked) = run(&TokenRequest::Unknown, None, None, 1000, Ok(response("x")), Ok(()));
    let err = result.unwrap_err();
    assert_eq!(err.kind(), &ErrorKind::UnsupportedGrantType);
    assert_eq!(err.description(), "unsupported grant type");
    assert!(asked.is_empty());
}

#[test]
fn done_expects_nothing() {
    assert!(!TokenIssue::Done.expects(&IssueEvent::Started));
    assert!(TokenIssue::Start.expects(&IssueEvent::Started));
    assert!(!TokenIssue::Start.expects(&IssueEvent::Revoked { outcome: Ok(()) }));
}

/// Runs the trading against a store of codes that revoking removes from.
fn run_against_store(req: &TokenRequest, codes: &mut std::collections::HashMap<String, AuthorizationCode>) -> Result<TokenResponse, Error> {
    let mut state = TokenIssue::Start;
    let mut event = IssueEvent::Started;
    loop {
        let (next, action) = issue_step(req, state, event);
        state = next;
        event = match action {
            IssueAction::FetchCode { code } => IssueEvent::CodeFetched { code: codes.get(&code).cloned() },
            IssueAction::IssueTokens { .. } => IssueEvent::TokensIssued { result: Ok(response("at")) },
            IssueAction::RevokeCode { code } => IssueEvent::Revoked {
                outcome: codes.remove(&code).map(|_| ()).ok_or_else(server_error),
            },
            IssueAction::Finish { result } => return result,
            other => panic!("unexpected {:?}", other),
        };
    }
}

#[test]
fn a_code_is_redeemed_at_most_once() {
    let mut codes = std::collections::HashMap::new();
    codes.insert(
        "c0de".to_string(),
        AuthorizationCode::with_expiration("c0de".to_string(), session("profile"), 2000),
    );
    assert!(run_against_store(&code_request(), &mut codes).is_ok());
    assert!(codes.is_empty());
    let err = run_against_store(&code_request(), &mut codes).unwrap_err();
    assert_eq!(err.kind(), &ErrorKind::InvalidRequest);
    assert_eq!(err.description(), "invalid authorization code");
}
