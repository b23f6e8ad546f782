//! The answers of the store, as the library reads them.

use vstd::prelude::*;

verus! {

/// What the store tells about a database.
#[derive(Debug)]
pub struct DBInfo {
    pub cluster: DBClusterInfo,
    pub compact_running: bool,
    pub db_name: String,
    pub disk_format_version: i32,
    pub doc_count: i64,
    pub doc_del_count: i64,
    pub instance_start_time: String,
    pub purge_seq: String,
    pub sizes: DBSizes,
    pub update_seq: String,
    pub props: DBProps,
}

/// The sizes of a database, in bytes.
#[derive(Debug)]
pub struct DBSizes {
    pub active: i32,
    pub external: i32,
    pub file: i32,
}

/// How a database is spread over the cluster.
#[derive(Debug)]
pub struct DBClusterInfo {
    pub n: i16,
    pub q: i16,
    pub r: i16,
    pub w: i16,
}

/// The properties of a database.
#[derive(Debug)]
pub struct DBProps {
    pub partitioned: Option<bool>,
}

/// A bare acknowledgement.
#[derive(Debug)]
pub struct OkResponse {
    pub ok: bool,
}

/// The answer to storing a document: its id and new revision.
#[derive(Debug)]
pub struct PutResponse {
    pub ok: bool,
    pub id: String,
    pub rev: String,
}

/// The answer to a query: the documents found, and where the next page
/// starts.
#[derive(Debug)]
pub struct FindResponse<T> {
    pub docs: Vec<T>,
    pub bookmark: String,
    pub warning: Option<String>,
}

/// The answer to listing documents.
#[derive(Debug)]
pub struct RowsResponse<T: Clone> {
    pub offset: usize,
    pub rows: Vec<RawDocResponse<T>>,
    pub total_rows: usize,
}

/// One listed document, with its id, key and revision.
#[derive(Debug)]
pub struct RawDocResponse<T: Clone> {
    pub id: String,
    pub key: String,
    pub value: RawDocValue,
    pub doc: T,
}

/// The revision of a listed document.
#[derive(Debug)]
pub struct RawDocValue {
    pub rev: String,
}

} // verus!
