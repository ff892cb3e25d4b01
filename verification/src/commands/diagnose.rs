//! `internode diagnose ...`: uncapped edge counts that expose noise.
use vstd::prelude::*;

use crate::request::{
    get_request, int_param, query_text, sub_path, text_param, ApiRequest, QueryParams,
};

verus! {

/// Path of the diagnostics API.
pub const BASE: &'static str = "/internode-tools/cli/oi/diagnostics";

/// The diagnostics GET for `entity`: `order_by`, `limit` (the top count),
/// `min_edges`, `offset`, in that order, each only when given.
pub open spec fn diagnostic_request(
    entity: Seq<char>,
    order_by: Option<&str>,
    top: Option<i64>,
    min_edges: Option<i64>,
    offset: Option<i64>,
) -> crate::request::RequestModel {
    get_request(
        BASE@ + "/"@ + entity + query_text(
            text_param("order_by"@, order_by) + int_param("limit"@, top) + int_param(
                "min_edges"@,
                min_edges,
            ) + int_param("offset"@, offset),
        ),
    )
}

fn run(
    entity: &str,
    order_by: Option<&str>,
    top: Option<i64>,
    min_edges: Option<i64>,
    offset: Option<i64>,
) -> (r: ApiRequest)
    ensures
        r@ == diagnostic_request(entity@, order_by, top, min_edges, offset),
{
    let mut params = QueryParams::new();
    params.push_text("order_by", order_by);
    params.push_int("limit", top);
    params.push_int("min_edges", min_edges);
    params.push_int("offset", offset);
    let qs = params.query_string();
    let mut path = sub_path(BASE, "/");
    path.append(entity);
    path.append(qs.as_str());
    ApiRequest::get(path)
}

/// `diagnose decisions`: decisions ranked by outgoing edges.
pub fn decisions(by: Option<&str>, top: Option<i64>, min_edges: Option<i64>, offset: Option<i64>) -> (r:
    ApiRequest)
    ensures
        r@ == diagnostic_request("decisions"@, by, top, min_edges, offset),
{
    run("decisions", by, top, min_edges, offset)
}

/// `diagnose topics`: topics ranked by sub-topics or decisions.
pub fn topics(by: Option<&str>, top: Option<i64>, min_edges: Option<i64>, offset: Option<i64>) -> (r:
    ApiRequest)
    ensures
        r@ == diagnostic_request("topics"@, by, top, min_edges, offset),
{
    run("topics", by, top, min_edges, offset)
}

/// `diagnose subtopics`: sub-topics ranked by incoming decision edges (no
/// sort dimension is sent).
pub fn subtopics(top: Option<i64>, min_edges: Option<i64>, offset: Option<i64>) -> (r: ApiRequest)
    ensures
        r@ == diagnostic_request("sub-topics"@, None, top, min_edges, offset),
{
    run("sub-topics", None, top, min_edges, offset)
}

/// `diagnose intents`: intents ranked by supporting decisions (no sort
/// dimension is sent).
pub fn intents(top: Option<i64>, min_edges: Option<i64>, offset: Option<i64>) -> (r: ApiRequest)
    ensures
        r@ == diagnostic_request("intents"@, None, top, min_edges, offset),
{
    run("intents", None, top, min_edges, offset)
}

} // verus!
