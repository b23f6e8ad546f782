use enseada::http::error::ErrorResponse;
use enseada::handlers::oauth::error::{form_error_reply, query_error_reply, FormErrorReply, QueryErrorReply};
use enseada::http::extractor::user::{current_user_id, unknown_user};
use enseada::couchdb::error::Error as CouchError;
use enseada::http::error::ApiError;
use enseada::http::extractor::session::{basic_auth, session_scope, token_from_header, token_session, TokenRefusal};
use enseada::http::guard::subdomain;
use enseada::http::handler::oauth::{
    authentication_failed, login_form_for, redirect_target, refused_authorization, LoginFormBody,
};
use enseada::http::handler::rbac::{role_subject, user_subject, Permission};
use enseada::http::handler::user::{missing_user, user_not_found, ListQuery};
use enseada::http::handler::PaginationQuery;
use enseada::guid::Guid;
use enseada::oauth::error::{Error as OAuthError, ErrorKind};
use enseada::oauth::request::{AuthorizationRequest, ResponseType};
use enseada::oauth::scope::Scope;
use enseada::oauth::session::Session;
use enseada::oauth::token::AccessToken;

#[test]
fn unauthorized_error() {
    let e = ApiError::unauthorized();
    assert_eq!(e.status_code(), 401);
    assert_eq!(e.to_string(), "unauthorized");
}

#[test]
fn status_codes_by_variant() {
    assert_eq!(ApiError::BadRequest("x".into()).status_code(), 400);
    assert_eq!(ApiError::Conflict("x".into()).status_code(), 409);
    assert_eq!(ApiError::Forbidden("x".into()).status_code(), 403);
    assert_eq!(ApiError::NotFound("x".into()).status_code(), 404);
    assert_eq!(ApiError::ValidationError(vec![]).status_code(), 400);
    assert_eq!(ApiError::ServiceUnavailable("x".into()).status_code(), 503);
    assert_eq!(ApiError::InternalServerError("x".into()).status_code(), 500);
    assert_eq!(ApiError::BlockingError("x".into()).status_code(), 500);
}

#[test]
fn error_response_body_names_the_status() {
    let r = ApiError::NotFound("no such repo".into()).error_response();
    assert_eq!(r.status, 404);
    let body = r.body.unwrap();
    assert_eq!(body.error(), "Not Found");
    assert_eq!(body.reasons(), &vec!["no such repo".to_string()]);

    let r = ApiError::Unauthorized("who".into()).error_response();
    assert_eq!(r.status, 401);
    assert_eq!(r.body.unwrap().error(), "Unauthorized");

    let r = ApiError::ServiceUnavailable("down".into()).error_response();
    assert_eq!(r.body.unwrap().error(), "Service Unavailable");
}

#[test]
fn validation_error_is_unprocessable_with_a_bad_request_body() {
    let r = ApiError::ValidationError(vec!["a".into(), "b".into()]).error_response();
    assert_eq!(r.status, 422);
    let body = r.body.unwrap();
    assert_eq!(body.error(), "Bad Request");
    assert_eq!(body.reasons(), &vec!["a".to_string(), "b".to_string()]);
    assert_eq!(ApiError::ValidationError(vec!["a".into()]).to_string(), "");
}

#[test]
fn internal_errors_have_no_body() {
    let r = ApiError::InternalServerError("secret detail".into()).error_response();
    assert_eq!(r.status, 500);
    assert!(r.body.is_none());
    let r = ApiError::BlockingError("x".into()).error_response();
    assert_eq!(r.status, 500);
    assert!(r.body.is_none());
}

#[test]
fn oauth_errors_map_to_api_errors() {
    let m = |k: ErrorKind| ApiError::from(OAuthError::new(k, "d".to_string()));
    assert!(matches!(m(ErrorKind::AccessDenied), ApiError::Forbidden(s) if s == "d"));
    assert!(matches!(m(ErrorKind::InvalidClient), ApiError::Unauthorized(s) if s == "d"));
    assert!(matches!(m(ErrorKind::ServerError), ApiError::InternalServerError(s) if s == "d"));
    assert!(matches!(m(ErrorKind::Unknown), ApiError::InternalServerError(s) if s == "d"));
    assert!(matches!(m(ErrorKind::TemporarilyUnavailable), ApiError::ServiceUnavailable(s) if s == "d"));
    assert!(matches!(m(ErrorKind::InvalidScope), ApiError::BadRequest(s) if s == "d"));
    assert!(matches!(m(ErrorKind::InvalidRequest), ApiError::BadRequest(s) if s == "d"));
}

#[test]
fn couch_errors_map_to_api_errors() {
    assert!(matches!(ApiError::from(CouchError::new("c".into(), Some(409))), ApiError::Conflict(s) if s == "c"));
    assert!(matches!(ApiError::from(CouchError::new("n".into(), Some(404))), ApiError::NotFound(s) if s == "n"));
    assert!(matches!(ApiError::from(CouchError::new("x".into(), Some(400))), ApiError::InternalServerError(s) if s == "x"));
    assert!(matches!(ApiError::from(CouchError::new("y".into(), None)), ApiError::InternalServerError(s) if s == "y"));
}

#[test]
fn subdomain_guard_adds_a_dot() {
    let g = subdomain("api");
    assert!(g.check(Some("api.example.com")));
    assert!(g.check(Some("api.example.com:8080")));
    assert!(!g.check(Some("apix.example.com")));
    assert!(!g.check(Some("example.com")));
    assert!(!g.check(None));
    let g = subdomain("docker.");
    assert!(g.check(Some("docker.enseada.io")));
}

#[test]
fn subdomain_guard_needs_a_host() {
    let g = subdomain("api");
    assert!(!g.check(Some("not a host")));
    assert!(g.check(Some("http://api.example.com/path")));
}

#[test]
fn bearer_tokens_are_read() {
    assert_eq!(token_from_header(Some("Bearer abc")), Some("abc".to_string()));
    assert_eq!(token_from_header(Some("Bearer  two")), Some(" two".to_string()));
    assert_eq!(token_from_header(Some("Bearer ")), None);
    assert_eq!(token_from_header(Some("bearer abc")), None);
    assert_eq!(token_from_header(None), None);
}

#[test]
fn tokens_in_basic_credentials_are_read() {
    assert_eq!(token_from_header(Some("Basic eC1vYXV0aC10b2tlbjp0b2s=")), Some("tok".to_string()));
    assert_eq!(token_from_header(Some("Basic Ym9iOnRvaw==")), None);
    assert_eq!(token_from_header(Some("Basic !!!")), None);
}

#[test]
fn basic_credentials_are_read() {
    let a = basic_auth(Some("Basic YXBwOnB3")).unwrap();
    assert_eq!(a.username(), "app");
    assert_eq!(a.password(), Some("pw".to_string()));
    let a = basic_auth(Some("Basic YXBwOg==")).unwrap();
    assert_eq!(a.username(), "app");
    assert_eq!(a.password(), None);
    assert!(basic_auth(Some("Bearer x")).is_none());
    assert!(basic_auth(None).is_none());
}

#[test]
fn access_tokens_grant_their_session_until_they_expire() {
    let session = Session::new("app".to_string(), Scope::from("profile"));
    let t = AccessToken::with_expiration(Some("a".into()), session.clone(), 100);
    let s = token_session(Ok(t), 100).unwrap();
    assert_eq!(s.client_id(), "app");
    let t = AccessToken::with_expiration(Some("a".into()), session, 100);
    assert_eq!(token_session(Ok(t), 101).unwrap_err(), TokenRefusal::Expired);
    let e = OAuthError::new(ErrorKind::InvalidRequest, "access token not found".into());
    assert_eq!(token_session(Err(e), 0).unwrap_err(), TokenRefusal::Unknown);
    assert!(matches!(TokenRefusal::Expired.to_api_error(), ApiError::Unauthorized(s) if s == "unauthorized"));
}

#[test]
fn pagination_defaults() {
    assert_eq!(PaginationQuery::new(None, None).limit(), 20);
    assert_eq!(PaginationQuery::new(Some(5), None).limit(), 5);
    assert_eq!(PaginationQuery::new(None, Some("c".into())).cursor(), Some(&"c".to_string()));
    assert_eq!(PaginationQuery::new(None, None).cursor(), None);
    let q = ListQuery::new(None, None);
    assert_eq!((q.limit(), q.offset()), (20, 0));
    let q = ListQuery::new(Some(3), Some(7));
    assert_eq!((q.limit(), q.offset()), (3, 7));
}

fn auth_request(state: Option<&str>) -> AuthorizationRequest {
    AuthorizationRequest {
        response_type: ResponseType::Code,
        client_id: "app".to_string(),
        redirect_uri: "http://example.com/cb".to_string(),
        scope: Scope::from("profile email"),
        state: state.map(|s| s.to_string()),
    }
}

#[test]
fn login_form_carries_the_request() {
    let f = login_form_for(&auth_request(None));
    assert_eq!(f.response_type, "code");
    assert_eq!(f.client_id, "app");
    assert_eq!(f.redirect_uri, "http://example.com/cb");
    assert_eq!(f.scope, "profile email");
    assert_eq!(f.state, "");
    assert_eq!(login_form_for(&auth_request(Some("s1"))).state, "s1");
    let body = LoginFormBody { username: "u".into(), password: "p".into(), auth_request: auth_request(None) };
    assert_eq!(body.auth_request.client_id, "app");
}

#[test]
fn login_redirect_target_is_parsed() {
    assert_eq!(redirect_target("http://example.com/cb").unwrap(), "http://example.com/cb");
    assert_eq!(redirect_target("http://Example.com").unwrap(), "http://example.com/");
    assert!(matches!(redirect_target("nope"), Err(ApiError::BadRequest(m)) if m == "relative URL without a base"));
}

#[test]
fn refused_authorizations() {
    let e = OAuthError::new(ErrorKind::InvalidRedirectUri, "invalid redirect URI".into());
    assert!(matches!(refused_authorization(e),
        Err(ApiError::BadRequest(m)) if m == "\"invalid_redirect_uri\": invalid redirect URI"));
    let e = OAuthError::new(ErrorKind::InvalidScope, "invalid scopes".into());
    let back = refused_authorization(e).unwrap();
    assert_eq!(back.kind(), &ErrorKind::InvalidScope);
    assert!(matches!(authentication_failed(), ApiError::Unauthorized(m) if m == "authentication failed"));
}

#[test]
fn user_errors() {
    assert!(matches!(user_not_found("bob"), ApiError::NotFound(m) if m == "User bob not found"));
    assert!(matches!(missing_user("bob"), ApiError::NotFound(m) if m == "bob"));
}

#[test]
fn permission_subjects() {
    assert_eq!(user_subject("bob").to_string(), "user:bob");
    assert_eq!(role_subject("admin").to_string(), "role:admin");
    let p = Permission { subject: None, object: Guid::simple("oci:repos"), action: "read".into() };
    let p = p.with_subject(user_subject("bob"));
    assert_eq!(p.subject.unwrap().to_string(), "user:bob");
    assert_eq!(p.object.to_string(), "oci:repos");
    assert_eq!(p.action, "read");
}

#[test]
fn subdomain_prefix_with_or_without_dot_is_the_same() {
    for host in ["api.example.com", "apix.example.com", "example.com", "api.", "api"] {
        assert_eq!(subdomain("api").check(Some(host)), subdomain("api.").check(Some(host)), "{}", host);
    }
}

#[test]
fn oauth_error_statuses() {
    assert_eq!(ErrorKind::InvalidClient.status_code(), 401);
    assert_eq!(ErrorKind::InvalidGrant.status_code(), 400);
    assert_eq!(ErrorKind::ServerError.status_code(), 500);
    assert_eq!(ErrorKind::TemporarilyUnavailable.status_code(), 503);
    let r = ApiError::from(OAuthError::new(ErrorKind::ServerError, "x".into())).error_response();
    assert_eq!(r.status, 500);
    assert!(r.body.is_none());
}

#[test]
fn current_user_from_session() {
    let mut s = Session::for_client("app".into());
    assert!(matches!(current_user_id(&s), Err(ApiError::Unauthorized(m)) if m == "unauthorized"));
    s.set_user_id("user:bob".into());
    assert_eq!(current_user_id(&s).unwrap(), "bob");
    s.set_user_id("plain".into());
    assert_eq!(current_user_id(&s).unwrap(), "plain");
}

#[test]
fn malformed_queries() {
    let r = query_error_reply("missing field `redirect_uri`", Some("missing field `redirect_uri`"), "client_id=x");
    assert!(matches!(r, QueryErrorReply::BadRequest { body, plain: false } if body == "invalid redirect_uri parameter"));
    let r = query_error_reply("missing field `scope`", Some("missing field `scope`"), "client_id=x&redirect_uri=http%3A%2F%2Fexample.com%2Fcb");
    match r {
        QueryErrorReply::RedirectBack { redirect_uri, error } => {
            assert_eq!(redirect_uri, "http://example.com/cb");
            assert_eq!(error.kind(), &ErrorKind::InvalidRequest);
            assert_eq!(error.description(), "missing field `scope`");
        }
        other => panic!("{:?}", other),
    }
    let r = query_error_reply("missing field `scope`", Some("m"), "redirect_uri=not%20a%20url");
    assert!(matches!(r, QueryErrorReply::BadRequest { plain: false, .. }));
    let r = query_error_reply("missing field `scope`", Some("m"), "client_id=x");
    assert!(matches!(r, QueryErrorReply::BadRequest { plain: false, .. }));
    let r = query_error_reply("payload too large", None, "");
    assert!(matches!(r, QueryErrorReply::BadRequest { body, plain: true } if body == "payload too large"));
    match form_error_reply("x", true) {
        FormErrorReply::Json(e) => assert_eq!(e.description(), "request data is invalid or is missing a required parameter"),
        other => panic!("{:?}", other),
    }
    assert!(matches!(form_error_reply("too big", false), FormErrorReply::Text(t) if t == "too big"));
}

#[test]
fn error_body_titles() {
    assert_eq!(ErrorResponse::new(409, vec![]).error(), "Conflict");
    assert_eq!(ErrorResponse::new(599, vec!["r".into()]).error(), "Internal Server Error");
    assert_eq!(ErrorResponse::new(42, vec![]).error(), "Internal Server Error");
}

#[test]
fn session_scope_and_unknown_user() {
    let s = Session::new("app".to_string(), Scope::from("profile email"));
    assert_eq!(session_scope(&s).to_string(), "profile email");
    let e = unknown_user();
    assert!(matches!(&e, ApiError::Unauthorized(m) if m == "unauthorized"));
    assert_eq!(e.status_code(), 401);
}
