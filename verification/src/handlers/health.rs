//! The health endpoint: whether the store answers.

use vstd::prelude::*;
use vstd::string::*;

use crate::couchdb::error::Error as CouchError;
use crate::couchdb::status::Status;
use crate::http::error::{ApiError, ApiErrorView};

verus! {

/// The health of the service: the status the store reports.
#[derive(Debug)]
pub struct HealthResponse {
    pub status: String,
}

/// The answer of the health endpoint: the store's status when it answered,
/// else the service is unavailable.
pub fn health_response(status: Result<Status, CouchError>) -> (r: Result<HealthResponse, ApiError>)
    ensures
        match status {
            Ok(s) => r matches Ok(h) && h.status@ == s.status@,
            Err(_) => r matches Err(e) && e@ == ApiErrorView::ServiceUnavailable("database connection refused"@),
        },
{
    match status {
        Ok(s) => Ok(HealthResponse { status: s.status }),
        Err(_) => Err(ApiError::ServiceUnavailable(String::from_str("database connection refused"))),
    }
}

} // verus!
