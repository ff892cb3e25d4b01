//! `internode graph ...`: whole-graph export and its schema.
use vstd::prelude::*;

use crate::request::{get_request, sub_path, ApiRequest};

verus! {

/// Path of the graph API.
pub const BASE: &'static str = "/internode-tools/cli/oi/graph";

/// The query string asking for soft-deleted nodes too, or none.
pub open spec fn deleted_query(include_deleted: bool) -> Seq<char> {
    if include_deleted {
        "?include_deleted=true"@
    } else {
        Seq::empty()
    }
}

fn graph_request(tail: &str, include_deleted: bool) -> (r: ApiRequest)
    ensures
        r@ == get_request(BASE@ + tail@ + deleted_query(include_deleted)),
{
    let mut path = sub_path(BASE, tail);
    if include_deleted {
        path.append("?include_deleted=true");
    }
    ApiRequest::get(path)
}

/// `graph export`: a GET of the whole graph, soft-deleted nodes included
/// when asked.
pub fn export(include_deleted: bool) -> (r: ApiRequest)
    ensures
        r@ == get_request(BASE@ + "/export"@ + deleted_query(include_deleted)),
{
    graph_request("/export", include_deleted)
}

/// `graph schema`: a GET of the schema of the exported graph.
pub fn schema(include_deleted: bool) -> (r: ApiRequest)
    ensures
        r@ == get_request(BASE@ + "/schema"@ + deleted_query(include_deleted)),
{
    graph_request("/schema", include_deleted)
}

/// Law: the export and schema queries ask for soft-deleted nodes exactly
/// when the caller does: with the flag the query is
/// `?include_deleted=true`, without it there is no query at all.
pub proof fn law_deleted_query_follows_the_flag(include_deleted: bool)
    ensures
        include_deleted ==> deleted_query(include_deleted) == "?include_deleted=true"@,
        !include_deleted ==> deleted_query(include_deleted).len() == 0,
        deleted_query(true) != deleted_query(false),
{
    reveal_strlit("?include_deleted=true");
    assert(deleted_query(true).len() > 0);
}

} // verus!
