//! The health check.

use vstd::prelude::*;
use crate::reply::{Body, Reply, STATUS_OK};

verus! {

/// What the health check reports.
#[derive(Debug, Clone, PartialEq)]
pub struct HealthResponse {
    pub status: String,
    pub version: String,
    pub database: bool,
}

/// The health check's answer, given whether the database answered a trivial
/// query and the service's version: always `200`, with status `"Ok"`.
pub fn report(database: bool, version: String) -> (r: Reply<HealthResponse>)
    ensures
        r.status == STATUS_OK,
        r.body matches Body::Json(h) && h.status@ == "Ok"@ && h.version == version && h.database == database,
{
    let status = "Ok".to_string();
    Reply { status: STATUS_OK, body: Body::Json(HealthResponse { status, version, database }) }
}

} // verus!
