use enseada::couchdb::error::Error as CouchError;
use enseada::couchdb::status::Status;
use enseada::handlers::health::health_response;
use enseada::http::error::ApiError;

#[test]
fn health_reports_the_store_status() {
    let ok = health_response(Ok(Status { status: "ok".into() })).unwrap();
    assert_eq!(ok.status, "ok");
    let e = health_response(Err(CouchError::new("refused".into(), None))).unwrap_err();
    assert!(matches!(e, ApiError::ServiceUnavailable(m) if m == "database connection refused"));
}
