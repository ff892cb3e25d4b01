//! `internode entity ...`: entity details and recovery.
use vstd::prelude::*;

use crate::json::{BodyModel, JsonModel, RequestBody};
use crate::request::{
    get_request, int_param, item_path, post_request, query_text, sub_path, text_param, ApiRequest,
    QueryParams,
};
use crate::text::string_views;

verus! {

/// Path of the entities API.
pub const BASE: &'static str = "/internode-tools/cli/oi/entities";

/// The body of `entity get`.
pub open spec fn get_body(ids: Seq<String>, include_deleted: bool) -> BodyModel {
    Map::empty().insert("entity_ids"@, JsonModel::TextList(string_views(ids))).insert(
        "include_deleted"@,
        JsonModel::Bool(include_deleted),
    )
}

/// `entity get`: a POST asking for the given entities, soft-deleted ones
/// too when `include_deleted`.
pub fn get(ids: Vec<String>, include_deleted: bool) -> (r: ApiRequest)
    ensures
        r@ == post_request(BASE@, get_body(ids@, include_deleted)),
{
    let mut body = RequestBody::new();
    body.set_text_list("entity_ids", ids.as_slice());
    body.set_bool("include_deleted", include_deleted);
    ApiRequest::post(String::from_str(BASE), body)
}

/// `entity list-deleted`: a GET of the soft-deleted entities (`labels`,
/// `search`, `limit`, `offset`, in that order, each only when given).
pub fn list_deleted(
    labels: Option<&str>,
    search: Option<&str>,
    limit: Option<i64>,
    offset: Option<i64>,
) -> (r: ApiRequest)
    ensures
        r@ == get_request(
            BASE@ + "/deleted"@ + query_text(
                text_param("labels"@, labels) + text_param("search"@, search) + int_param(
                    "limit"@,
                    limit,
                ) + int_param("offset"@, offset),
            ),
        ),
{
    let mut params = QueryParams::new();
    params.push_text("labels", labels);
    params.push_text("search", search);
    params.push_int("limit", limit);
    params.push_int("offset", offset);
    let qs = params.query_string();
    let mut path = sub_path(BASE, "/deleted");
    path.append(qs.as_str());
    ApiRequest::get(path)
}

/// `entity restore`: restores one soft-deleted entity with the given root
/// label.
pub fn restore(id: &str, label: &str) -> (r: ApiRequest)
    ensures
        r@ == post_request(
            BASE@ + "/"@ + id@ + "/restore"@,
            Map::empty().insert("label"@, JsonModel::Text(label@)),
        ),
{
    let mut body = RequestBody::new();
    body.set_text("label", label);
    ApiRequest::post(item_path(BASE, id, "/restore"), body)
}

/// Law: the body of `entity get` carries the ids asked for and the
/// caller's `include_deleted` flag, and nothing else.
pub proof fn law_get_body_carries_its_inputs(ids: Seq<String>, include_deleted: bool)
    ensures
        ({
            let b = get_body(ids, include_deleted);
            &&& b["entity_ids"@] == JsonModel::TextList(string_views(ids))
            &&& b["include_deleted"@] == JsonModel::Bool(include_deleted)
            &&& b.dom() =~= set!["entity_ids"@, "include_deleted"@]
        }),
{
    reveal_strlit("entity_ids");
    reveal_strlit("include_deleted");
    assert("entity_ids"@[0] != "include_deleted"@[0]);
}

} // verus!
