use enseada::oauth::client::{Client, ClientKind};
use enseada::oauth::code::AuthorizationCode;
use enseada::oauth::error::{Error, ErrorKind};
use enseada::oauth::handler::{
    authorization_client, authorization_response, code_session, found_access_token,
    found_refresh_token, grant_of, issue_code, refresh_session, token_response, token_response_at,
    token_set, BasicAuth, Grant, ACCESS_TOKEN_LIFETIME, CODE_LIFETIME, REFRESH_TOKEN_LIFETIME,
};
use enseada::oauth::request::{AuthorizationRequest, ResponseType, TokenRequest};
use enseada::oauth::response::{TokenType};
use enseada::oauth::scope::Scope;
use enseada::oauth::session::Session;
use enseada::oauth::token::{AccessToken, Expirable, RefreshToken};

const SEC: i128 = 1_000_000_000;

/// The current time in nanoseconds since the Unix epoch.
fn now() -> i128 {
    let now = chrono::Utc::now();
    now.timestamp() as i128 * SEC + now.timestamp_subsec_nanos() as i128
}

fn auth_request(state: Option<&str>) -> AuthorizationRequest {
    AuthorizationRequest {
        response_type: ResponseType::Code,
        client_id: "app".to_string(),
        redirect_uri: "http://example.com/cb".to_string(),
        scope: Scope::from("profile email"),
        state: state.map(|s| s.to_string()),
    }
}

#[test]
fn issuing_a_code_sets_the_session_scope_and_lives_five_minutes() {
    let req = auth_request(Some("xyz"));
    let mut session = Session::for_client("app".to_string());
    session.set_user_id("bob".to_string());
    let before = now();
    let code = issue_code(&req, &mut session, "s3cr3t".to_string());
    let after = now();
    assert_eq!(session.scope().to_string(), "profile email");
    assert_eq!(session.client_id(), "app");
    assert_eq!(session.user_id(), Some(&"bob".to_string()));
    assert_eq!(code.to_string(), "s3cr3t");
    assert_eq!(code.session().scope().to_string(), "profile email");
    assert!(code.expiration() >= before + 300 * SEC && code.expiration() <= after + 300 * SEC);
    assert_eq!(CODE_LIFETIME, 300);
}

#[test]
fn authorization_response_hands_back_the_state() {
    let req = auth_request(Some("xyz"));
    let code = AuthorizationCode::with_expiration("c".to_string(), Session::empty(), 10);
    let res = authorization_response(&req, code);
    assert_eq!(res.state(), Some("xyz".to_string()));
    assert_eq!(res.authorization_code().to_string(), "c");
    let res = authorization_response(&auth_request(None), AuthorizationCode::with_expiration("d".to_string(), Session::empty(), 10));
    assert_eq!(res.state(), None);
}

#[test]
fn authorization_client_checks_scope_and_redirect() {
    let client = Client::public("app".to_string(), Scope::from("profile email openid"), vec!["http://example.com/cb".to_string()]);
    assert!(authorization_client(&auth_request(None), Some(client)).is_ok());
    let narrow = Client::public("app".to_string(), Scope::from("profile"), vec!["http://example.com/cb".to_string()]);
    let e = authorization_client(&auth_request(None), Some(narrow)).unwrap_err();
    assert_eq!(e.kind(), &ErrorKind::InvalidScope);
    let e = authorization_client(&auth_request(None), None).unwrap_err();
    assert_eq!(e.kind(), &ErrorKind::InvalidClient);
}

#[test]
fn grant_of_names_what_is_traded() {
    let req = TokenRequest::AuthorizationCode {
        code: "c".to_string(),
        redirect_uri: "u".to_string(),
        client_id: None,
        client_secret: None,
    };
    assert!(matches!(grant_of(&req), Ok(Grant::Code { code }) if code == "c"));
    let req = TokenRequest::RefreshToken {
        refresh_token: "r".to_string(),
        scope: None,
        client_id: None,
        client_secret: None,
    };
    assert!(matches!(grant_of(&req), Ok(Grant::RefreshToken { refresh_token }) if refresh_token == "r"));
    let e = grant_of(&TokenRequest::Unknown).unwrap_err();
    assert_eq!(e.kind(), &ErrorKind::UnsupportedGrantType);
    assert_eq!(e.description(), "unsupported grant type");
}

#[test]
fn code_session_is_the_codes() {
    let code = AuthorizationCode::with_expiration(
        "c".to_string(),
        Session::new("app".to_string(), Scope::from("profile")),
        10,
    );
    let s = code_session(Some(&code)).unwrap();
    assert_eq!(s.client_id(), "app");
    assert_eq!(s.scope().to_string(), "profile");
    let e = code_session(None).unwrap_err();
    assert_eq!(e.kind(), &ErrorKind::InvalidRequest);
    assert_eq!(e.description(), "invalid authorization code");
}

#[test]
fn refresh_session_refuses_expired_tokens() {
    let t = RefreshToken::with_expiration(None, Session::new("app".to_string(), Scope::from("a")), 100);
    assert_eq!(refresh_session(Some(&t), 100).unwrap().client_id(), "app");
    let e = refresh_session(Some(&t), 101).unwrap_err();
    assert_eq!(e.kind(), &ErrorKind::UnsupportedGrantType);
    assert_eq!(e.description(), "invalid refresh token");
    let e = refresh_session(None, 0).unwrap_err();
    assert_eq!(e.kind(), &ErrorKind::InvalidRequest);
    assert_eq!(e.description(), "invalid refresh token");
}

#[test]
fn token_set_lifetimes() {
    let session = Session::new("app".to_string(), Scope::from("profile"));
    let before = now();
    let (access, refresh) = token_set("at".to_string(), "rt".to_string(), &session);
    let after = now();
    assert_eq!(access.to_string(), "at");
    assert_eq!(refresh.to_string(), "rt");
    assert!(access.expiration() >= before + 300 * SEC && access.expiration() <= after + 300 * SEC);
    assert!(refresh.expiration() >= before + 86400 * SEC && refresh.expiration() <= after + 86400 * SEC);
    assert_eq!(ACCESS_TOKEN_LIFETIME, 300);
    assert_eq!(REFRESH_TOKEN_LIFETIME, 86400);
    assert!(!access.is_expired());
    assert!(access.expires_in() <= 300 && access.expires_in() >= 299);
}

#[test]
fn token_response_at_is_exact() {
    let session = Session::new("app".to_string(), Scope::from("profile email"));
    let access = AccessToken::with_expiration(Some("at".to_string()), session.clone(), 1300 * SEC);
    let refresh = RefreshToken::with_expiration(Some("rt".to_string()), session.clone(), 90000 * SEC);
    let res = token_response_at(&access, &refresh, &session, 1000 * SEC);
    assert_eq!(res.access_token, "at");
    assert_eq!(res.token_type, TokenType::Bearer);
    assert_eq!(res.token_type.as_str(), "bearer");
    assert_eq!(res.expires_in, 300);
    assert_eq!(res.refresh_token, Some("rt".to_string()));
    assert_eq!(res.scope.to_string(), "profile email");
}

#[test]
fn token_response_counts_from_now() {
    let session = Session::new("app".to_string(), Scope::from("profile"));
    let exp = now() + 300 * SEC;
    let access = AccessToken::with_expiration(Some("at".to_string()), session.clone(), exp);
    let refresh = RefreshToken::with_expiration(None, session.clone(), exp);
    let res = token_response(&access, &refresh, &session);
    assert!(res.expires_in <= 300 && res.expires_in >= 298);
    assert_eq!(res.refresh_token, Some(String::new()));
}

#[test]
fn found_tokens_or_errors() {
    let session = Session::empty();
    let t = AccessToken::with_expiration(Some("a".to_string()), session.clone(), 5);
    assert_eq!(found_access_token(Some(t)).unwrap().to_string(), "a");
    let e = found_access_token(None).unwrap_err();
    assert_eq!(e.kind(), &ErrorKind::InvalidRequest);
    assert_eq!(e.description(), "access token not found");
    let e = found_refresh_token(None).unwrap_err();
    assert_eq!(e.description(), "refresh token not found");
    let r = RefreshToken::with_expiration(Some("r".to_string()), session, 5);
    assert_eq!(found_refresh_token(Some(r)).unwrap().to_string(), "r");
}

#[test]
fn basic_auth_parts() {
    let a = BasicAuth::new("app".to_string(), Some("pw".to_string()));
    assert_eq!(a.username(), "app");
    assert_eq!(a.password(), Some("pw".to_string()));
}

#[test]
fn client_kinds() {
    let c = Client::confidential("app".to_string(), "h".to_string(), Scope::empty(), vec![]);
    assert!(matches!(c.kind(), ClientKind::Confidential { secret } if secret == "h"));
    assert_eq!(c.client_secret(), Some("h".to_string()));
    let p = Client::public("app".to_string(), Scope::empty(), vec![]);
    assert!(matches!(p.kind(), ClientKind::Public));
    assert_eq!(p.client_secret(), None);
}

#[test]
fn error_texts() {
    let e = Error::new(ErrorKind::AccessDenied, "no".to_string());
    assert_eq!(e.to_string(), "\"access_denied\": no");
    assert_eq!(ErrorKind::InvalidRedirectUri.code(), "invalid_redirect_uri");
    assert_eq!(ErrorKind::TemporarilyUnavailable.code(), "temporarily_unavailable");
}

#[test]
fn code_and_token_expiry_boundaries() {
    let c = AuthorizationCode::with_expiration("c".to_string(), Session::empty(), 100 * SEC);
    assert!(!c.is_expired_at(100 * SEC));
    assert!(c.is_expired_at(100 * SEC + 1));
    assert_eq!(c.expires_in_at(40 * SEC), 60);
    let t = AccessToken::with_expiration(None, Session::empty(), 100 * SEC);
    assert!(!t.is_expired_at(100 * SEC));
    assert!(t.is_expired_at(100 * SEC + 500_000_000));
    assert_eq!(t.expires_in_at(90 * SEC), 10);
    assert_eq!(t.to_string(), "");
}

#[test]
fn expiry_counts_nanoseconds_and_seconds_round_toward_zero() {
    let t = RefreshToken::with_expiration(None, Session::empty(), 10 * SEC);
    // Half a second past the expiration is past it.
    assert!(t.is_expired_at(10 * SEC + SEC / 2));
    assert!(!t.is_expired_at(10 * SEC));
    // 2.75 seconds left count as 2, and 2.75 seconds past as -2.
    assert_eq!(t.expires_in_at(10 * SEC - 2_750_000_000), 2);
    assert_eq!(t.expires_in_at(10 * SEC + 2_750_000_000), -2);
    assert_eq!(t.expires_in_at(10 * SEC - 999_999_999), 0);
    let c = AuthorizationCode::with_expiration("c".to_string(), Session::empty(), 10 * SEC);
    assert_eq!(c.expires_in_at(8 * SEC + 1), 1);
}

#[test]
fn session_setters() {
    let mut s = Session::empty();
    s.set_client_id("app".to_string()).set_scope(Scope::from("a b"));
    assert_eq!(s.client_id(), "app");
    assert_eq!(s.scope().to_string(), "a b");
    assert_eq!(s.user_id(), None);
    let c = s.clone();
    assert_eq!(c.scope().to_string(), "a b");
}

#[test]
fn response_type_text() {
    assert_eq!(ResponseType::Code.to_string(), "code");
    assert!(matches!(ResponseType::from_string("code".to_string()), ResponseType::Code));
}

fn seconds_left<T: Expirable>(t: &T) -> (i128, i64, bool) {
    (t.expiration(), Expirable::expires_in(t), Expirable::is_expired(t))
}

#[test]
fn tokens_are_expirable() {
    let session = Session::new("app".to_string(), Scope::from("profile"));
    let past = AccessToken::with_expiration(Some("a".to_string()), session.clone(), 5);
    let (exp, left, expired) = seconds_left(&past);
    assert_eq!(exp, 5);
    assert!(left < 0);
    assert!(expired);
    let future = RefreshToken::with_expiration(None, session, now() + 1000 * SEC);
    let (_, left, expired) = seconds_left(&future);
    assert!(left > 990 && left <= 1000);
    assert!(!expired);
}

#[test]
fn issued_at_a_given_time_expire_after_their_lifetimes() {
    let now = 1_000 * SEC + 123;
    let req = auth_request(None);
    let mut session = Session::for_client("app".to_string());
    let code = enseada::oauth::handler::issue_code_at(&req, &mut session, "c".to_string(), now);
    assert_eq!(code.expiration(), now + 300 * SEC);
    let (access, refresh) = enseada::oauth::handler::token_set_at("a".to_string(), "r".to_string(), &session, now);
    assert_eq!(access.expiration(), now + 300 * SEC);
    assert_eq!(refresh.expiration(), now + 86400 * SEC);
    let c = AuthorizationCode::new_at("c".to_string(), Session::empty(), 10, 5);
    assert_eq!(c.expiration(), 5 + 10 * SEC);
    let t = AccessToken::new_at("t".to_string(), Session::empty(), -1, 5 * SEC);
    assert_eq!(t.expiration(), 4 * SEC);
    assert!(t.is_expired_at(5 * SEC));
    let r = RefreshToken::new_at("r".to_string(), Session::empty(), 60, 0);
    assert_eq!(r.expires_in_at(0), 60);
}
