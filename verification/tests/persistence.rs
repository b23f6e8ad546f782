use enseada::couchdb::error::Error as CouchError;
use enseada::oauth::client::Client;
use enseada::oauth::error::ErrorKind;
use enseada::oauth::persistence::entity::auth_code::AuthorizationCodeEntity;
use enseada::oauth::persistence::entity::client::ClientEntity;
use enseada::oauth::persistence::storage::{map_couch_err, revoke_missing, Revoked};
use enseada::oauth::scope::Scope;
use enseada::oauth::session::Session;
use enseada::oauth_impl::client::OAuthClient;
use enseada::oauth_impl::code::AuthorizationCode as FixedCode;

#[test]
fn client_entities_are_keyed_by_id() {
    assert_eq!(ClientEntity::build_guid(&"app".to_string()).to_string(), "client:app");
    let g = ClientEntity::build_guid(&"a:b".to_string());
    assert_eq!(g.partition(), Some("client".to_string()));
    assert_eq!(g.id(), "a:b");
}

#[test]
fn stored_clients_read_back_public() {
    let c = Client::confidential(
        "app".into(),
        "hash".into(),
        Scope::from("profile"),
        vec!["http://example.com/cb".into()],
    );
    let e = ClientEntity::from(c);
    let back = e.to_client().unwrap();
    assert_eq!(back.client_id(), "app");
    assert_eq!(back.client_secret(), None);
    assert_eq!(back.allowed_scopes().to_string(), "profile");
    assert_eq!(back.allowed_redirect_uris(), &vec!["http://example.com/cb".to_string()]);
}

#[test]
fn stored_redirect_uris_are_parsed() {
    let c = Client::public("app".into(), Scope::empty(), vec!["HTTP://EXAMPLE.COM".into()]);
    let back = ClientEntity::from_client(&c).into_client();
    assert_eq!(back.allowed_redirect_uris(), &vec!["http://example.com/".to_string()]);
    let bad = Client::public("app".into(), Scope::empty(), vec!["no url".into()]);
    assert!(ClientEntity::from_client(&bad).to_client().is_none());
}

#[test]
fn code_entities() {
    let s = Session::new("app".into(), Scope::from("a"));
    let e = AuthorizationCodeEntity::new("sig".into(), s, 1234);
    assert_eq!(e.id().to_string(), "code:sig");
    assert_eq!(e.rev(), None);
    assert_eq!(e.session().client_id(), "app");
    let code = e.to_empty_code();
    assert_eq!(code.to_string(), "");
    assert_eq!(code.expiration(), 1234);
    assert_eq!(code.session().scope().to_string(), "a");
    assert_eq!(AuthorizationCodeEntity::build_guid("x").to_string(), "code:x");
}

#[test]
fn storage_errors() {
    let e = map_couch_err(CouchError::new("down".into(), Some(503)));
    assert_eq!(e.kind(), &ErrorKind::ServerError);
    assert_eq!(e.description(), "down");
    assert_eq!(revoke_missing(Revoked::AccessToken).description(), "invalid access token");
    assert_eq!(revoke_missing(Revoked::RefreshToken).description(), "invalid refresh token");
    let e = revoke_missing(Revoked::AuthorizationCode);
    assert_eq!(e.description(), "invalid authorization code");
    assert_eq!(e.kind(), &ErrorKind::InvalidRequest);
}

#[test]
fn fixed_client_and_code() {
    let c = OAuthClient {};
    assert_eq!(c.client_id(), "client");
    assert_eq!(c.client_secret(), Some("secret".to_string()));
    assert_eq!(c.allowed_scopes().to_string(), "profile");
    assert_eq!(c.allowed_redirect_uris(), vec!["http://example.com/".to_string()]);
    assert_eq!(FixedCode.to_string(), "code");
}
