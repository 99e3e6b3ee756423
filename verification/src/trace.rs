//! The trace of a lookup that the local store answered.

use vstd::prelude::*;
use ethportal_api::types::enr::SszEnr;
use ethportal_api::types::query_trace::QueryTrace;

verus! {

/// A signed node record.
#[verifier::external_type_specification]
#[verifier::external_body]
pub struct ExSszEnr(SszEnr);

/// The log of a lookup's progress.
#[verifier::external_type_specification]
#[verifier::external_body]
pub struct ExQueryTrace(QueryTrace);

/// Starts a trace with `QueryTrace::new`: a lookup for `content_id` that
/// begins now at the node of `local_enr`.
#[verifier::external_body]
pub(crate) fn new_trace(local_enr: &SszEnr, content_id: [u8; 32]) -> QueryTrace {
    QueryTrace::new(local_enr, ethportal_api::types::node_id::NodeId(content_id))
}

/// Records with `QueryTrace::node_responded_with_content` that the node of
/// `enr` served the content.
#[verifier::external_body]
pub(crate) fn mark_served_by(trace: &mut QueryTrace, enr: &SszEnr) {
    trace.node_responded_with_content(enr);
}

/// Prints a trace as JSON with `serde_json::to_string`, or gives the
/// serializer's message where it fails.
#[verifier::external_body]
pub(crate) fn trace_json(trace: &QueryTrace) -> Result<String, String> {
    match serde_json::to_string(trace) {
        Ok(text) => Ok(text),
        Err(err) => Err(err.to_string()),
    }
}

/// The trace of a lookup that the local store answered, as JSON: started at
/// the local node and marked as served by it.
pub(crate) fn local_trace(local_enr: &SszEnr, content_id: [u8; 32]) -> Result<String, String> {
    let mut trace = new_trace(local_enr, content_id);
    mark_served_by(&mut trace, local_enr);
    trace_json(&trace)
}

} // verus!
