//! `internode topics ...`: browse and reorganize topics.
use vstd::prelude::*;

use crate::json::{carries_opt_text, keys_distinct, opt_chars, with_opt_int, with_opt_text, BodyModel, JsonModel, RequestBody};
use crate::request::{
    get_request, id_path, int_param, item_path, patch_request, post_request, query_text, sub_path,
    text_param, ApiRequest, QueryParams,
};

verus! {

/// Path of the topics API.
pub const BASE: &'static str = "/internode-tools/cli/oi/topics";

/// `topics list`: a GET of the topic list (`limit`, `offset`, `search`,
/// `category_index`, in that order, each only when given).
pub fn list(limit: Option<i64>, offset: Option<i64>, search: Option<&str>, category: Option<i64>) -> (r:
    ApiRequest)
    ensures
        r@ == get_request(
            BASE@ + query_text(
                int_param("limit"@, limit) + int_param("offset"@, offset) + text_param(
                    "search"@,
                    search,
                ) + int_param("category_index"@, category),
            ),
        ),
{
    let mut params = QueryParams::new();
    params.push_int("limit", limit);
    params.push_int("offset", offset);
    params.push_text("search", search);
    params.push_int("category_index", category);
    let qs = params.query_string();
    ApiRequest::get(sub_path(BASE, qs.as_str()))
}

/// `topics inspect`: a GET of the sub-topics and decisions of one topic.
pub fn inspect(id: &str) -> (r: ApiRequest)
    ensures
        r@ == get_request(BASE@ + "/"@ + id@ + "/relationships"@),
{
    ApiRequest::get(item_path(BASE, id, "/relationships"))
}

/// The body of `topics update`: each field only when given.
pub open spec fn topic_update_body(
    title: Option<&str>,
    description: Option<&str>,
    category: Option<i64>,
    primary_contributor: Option<&str>,
    data_date: Option<&str>,
) -> BodyModel {
    with_opt_text(with_opt_text(
        with_opt_int(
            with_opt_text(
                with_opt_text(Map::empty(), "topic_title"@, opt_chars(title)),
                "topic_description"@,
                opt_chars(description),
            ),
            "category_index"@,
            category,
        ),
        "primary_contributor_email"@,
        opt_chars(primary_contributor),
    ), "data_date"@, opt_chars(data_date))
}

/// `topics update`: a PATCH of the given root-level fields of one topic,
/// stamped with `data_date` when given.
pub fn update(
    id: &str,
    title: Option<&str>,
    description: Option<&str>,
    category: Option<i64>,
    primary_contributor: Option<&str>,
    data_date: Option<&str>,
) -> (r: ApiRequest)
    ensures
        r@ == patch_request(
            BASE@ + "/"@ + id@,
            topic_update_body(title, description, category, primary_contributor, data_date),
        ),
{
    let mut body = RequestBody::new();
    body.set_opt_text("topic_title", title);
    body.set_opt_text("topic_description", description);
    body.set_opt_int("category_index", category);
    body.set_opt_text("primary_contributor_email", primary_contributor);
    body.set_opt_text("data_date", data_date);
    ApiRequest::patch(id_path(BASE, id), body)
}

/// `topics archive`: soft-archives one topic.
pub fn archive(id: &str) -> (r: ApiRequest)
    ensures
        r@ == post_request(BASE@ + "/"@ + id@ + "/archive"@, Map::empty()),
{
    ApiRequest::post(item_path(BASE, id, "/archive"), RequestBody::new())
}

/// `topics merge`: merges the source topic into the target.
pub fn merge(source_id: &str, target_id: &str) -> (r: ApiRequest)
    ensures
        r@ == post_request(
            BASE@ + "/"@ + source_id@ + "/merge"@,
            Map::empty().insert("target_topic_id"@, JsonModel::Text(target_id@)),
        ),
{
    let mut body = RequestBody::new();
    body.set_text("target_topic_id", target_id);
    ApiRequest::post(item_path(BASE, source_id, "/merge"), body)
}

/// Law: the body of `topics update` carries each field under its own
/// member exactly when it is given, the category as an integer.
pub proof fn law_topic_update_body_carries_its_inputs(
    title: Option<&str>,
    description: Option<&str>,
    category: Option<i64>,
    primary_contributor: Option<&str>,
    data_date: Option<&str>,
)
    ensures
        ({
            let b = topic_update_body(title, description, category, primary_contributor, data_date);
            &&& carries_opt_text(b, "topic_title"@, title)
            &&& carries_opt_text(b, "topic_description"@, description)
            &&& b.dom().contains("category_index"@) == category is Some
            &&& category matches Some(c) ==> b["category_index"@] == JsonModel::Int(c as int)
            &&& carries_opt_text(b, "primary_contributor_email"@, primary_contributor)
            &&& carries_opt_text(b, "data_date"@, data_date)
        }),
{
    reveal_strlit("topic_title");
    reveal_strlit("topic_description");
    reveal_strlit("category_index");
    reveal_strlit("primary_contributor_email");
    reveal_strlit("data_date");
    let keys = seq!["topic_title"@, "topic_description"@, "category_index"@, "primary_contributor_email"@, "data_date"@];
    assert(keys[0].len() == 11 && keys[0][0] == 't' && keys[0][1] == 'o');
    assert(keys[1].len() == 17 && keys[1][0] == 't' && keys[1][1] == 'o');
    assert(keys[2].len() == 14 && keys[2][0] == 'c' && keys[2][1] == 'a');
    assert(keys[3].len() == 25 && keys[3][0] == 'p' && keys[3][1] == 'r');
    assert(keys[4].len() == 9 && keys[4][0] == 'd' && keys[4][1] == 'a');
    assert(keys_distinct(keys)) by {
        assert forall|x: int, y: int|
            0 <= x < keys.len() && 0 <= y < keys.len() && x != y implies keys[x] != keys[y] by {
            if keys[x].len() == keys[y].len() && keys[x][0] == keys[y][0] {
                assert(keys[x][1] != keys[y][1]);
            }
        }
    }
    assert(keys[0] != keys[1]);
    assert(keys[0] != keys[2]);
    assert(keys[0] != keys[3]);
    assert(keys[0] != keys[4]);
    assert(keys[1] != keys[2]);
    assert(keys[1] != keys[3]);
    assert(keys[1] != keys[4]);
    assert(keys[2] != keys[3]);
    assert(keys[2] != keys[4]);
    assert(keys[3] != keys[4]);
}

} // verus!
