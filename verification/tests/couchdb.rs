use enseada::couchdb::client::{existence, Client};
use enseada::couchdb::db::name::{OAUTH, RBAC, USERS};
use enseada::couchdb::db::{event_lines, found, Database};
use enseada::couchdb::error::Error;
use enseada::couchdb::responses::{OkResponse, PutResponse, RawDocValue};
use enseada::couchdb::status::Status;

#[test]
fn database_paths() {
    let db = Database::new(OAUTH.to_string(), true);
    assert_eq!(db.name(), "oauth");
    assert!(db.partitioned());
    assert_eq!(db.doc_path("client:app"), "oauth/client:app");
    assert_eq!(db.index_path(), "oauth/_index");
    assert_eq!(db.find_path(), "oauth/_find");
    assert_eq!(db.partition_find_path("user"), "oauth/_partition/user/_find");
    assert_eq!(db.all_docs_path("repo"), "oauth/_partition/repo/_all_docs");
    assert_eq!(db.changes_path(), "oauth/_changes");
    assert_eq!((USERS, RBAC), ("users", "rbac"));
}

#[test]
fn missing_documents_are_none() {
    assert_eq!(found::<u32>(Ok(5)).unwrap(), Some(5));
    assert_eq!(found::<u32>(Err(Error::new("missing".into(), Some(404)))).unwrap(), None);
    let e = found::<u32>(Err(Error::new("boom".into(), Some(500)))).unwrap_err();
    assert_eq!(e.status(), 500);
    assert_eq!(e.to_string(), "boom");
}

#[test]
fn conflicting_puts_are_told_as_such() {
    let db = Database::new("users".to_string(), true);
    let e = db.put_error("user:bob", Error::new("conflict".into(), Some(409)));
    assert_eq!(e.to_string(), "document user:bob already exists in database users");
    assert_eq!(e.status(), 409);
    let e = db.put_error("user:bob", Error::new("bad".into(), Some(400)));
    assert_eq!(e.to_string(), "bad");
}

#[test]
fn errors_default_to_internal() {
    let e = Error::new("x".into(), None);
    assert_eq!(e.status(), 500);
    let e = e.map_message("y");
    assert_eq!(e.to_string(), "y");
    assert_eq!(e.status(), 500);
}

#[test]
fn feed_lines_skip_empty_ones() {
    let lines = event_lines("{\"seq\":1}\n\n{\"seq\":2}\r\n\r\n");
    assert_eq!(lines, vec!["{\"seq\":1}".to_string(), "{\"seq\":2}".to_string()]);
    assert!(event_lines("").is_empty());
    assert!(event_lines("\n\n").is_empty());
    assert_eq!(event_lines("last"), vec!["last".to_string()]);
}

#[test]
fn feed_lines_keep_a_carriage_return_that_no_line_feed_ends() {
    assert_eq!(event_lines("a\r\nb\r"), vec!["a".to_string(), "b\r".to_string()]);
    assert_eq!(event_lines("\r"), vec!["\r".to_string()]);
    assert!(event_lines("\r\n").is_empty());
}

#[test]
fn store_answers() {
    let ok = OkResponse { ok: true };
    assert!(ok.ok);
    let put = PutResponse { ok: true, id: "a".into(), rev: "1-x".into() };
    assert_eq!(put.rev, "1-x");
    let v = RawDocValue { rev: "2-y".into() };
    assert_eq!(v.rev, "2-y");
    let s = Status { status: "ok".into() };
    assert_eq!(s.status, "ok");
}

#[test]
fn store_urls_and_existence() {
    let c = Client::new("http://localhost:5984/".into(), "admin".into(), "pw".into());
    assert_eq!(c.build_url("oauth/client:app").unwrap(), "http://localhost:5984/oauth/client:app");
    assert_eq!(c.build_url("/_up").unwrap(), "http://localhost:5984/_up");
    assert_eq!(c.username(), "admin");
    assert_eq!(c.password(), Some(&"pw".to_string()));
    let bad = Client::new("not a url".into(), "a".into(), "b".into());
    assert!(bad.build_url("x").is_err());
    assert_eq!(existence(Ok(())).unwrap(), true);
    assert_eq!(existence(Err(Error::new("nf".into(), Some(404)))).unwrap(), false);
    assert_eq!(existence(Err(Error::new("x".into(), Some(401)))).unwrap_err().status(), 401);
}

#[test]
fn general_errors_keep_messages() {
    assert_eq!(enseada::error::Error::from("boom").to_string(), "boom");
    assert_eq!(enseada::error::Error::from(String::from("x")).to_string(), "x");
    let e = enseada::error::Error::from(Error::new("store down".into(), Some(503)));
    assert_eq!(e.to_string(), "store down");
}
