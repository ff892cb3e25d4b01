//! `internode subtopics ...`: browse and reorganize sub-topics.
use vstd::prelude::*;

use crate::json::{carries_opt_text, keys_distinct, opt_chars, with_opt_text, BodyModel, JsonModel, RequestBody};
use crate::request::{
    get_request, id_path, int_param, item_path, patch_request, post_request, query_text, sub_path,
    text_param, ApiRequest, QueryParams,
};

verus! {

/// Path of the sub-topics API.
pub const BASE: &'static str = "/internode-tools/cli/oi/sub-topics";

/// `subtopics list`: a GET of the sub-topic list (`limit`, `offset`,
/// `type`, `topic_id`, in that order, each only when given).
pub fn list(type_filter: Option<&str>, topic: Option<&str>, limit: Option<i64>, offset: Option<i64>) -> (r:
    ApiRequest)
    ensures
        r@ == get_request(
            BASE@ + query_text(
                int_param("limit"@, limit) + int_param("offset"@, offset) + text_param(
                    "type"@,
                    type_filter,
                ) + text_param("topic_id"@, topic),
            ),
        ),
{
    let mut params = QueryParams::new();
    params.push_int("limit", limit);
    params.push_int("offset", offset);
    params.push_text("type", type_filter);
    params.push_text("topic_id", topic);
    let qs = params.query_string();
    ApiRequest::get(sub_path(BASE, qs.as_str()))
}

/// `subtopics inspect`: a GET of the parent topic and incoming decision
/// edges of one sub-topic.
pub fn inspect(id: &str) -> (r: ApiRequest)
    ensures
        r@ == get_request(BASE@ + "/"@ + id@ + "/relationships"@),
{
    ApiRequest::get(item_path(BASE, id, "/relationships"))
}

/// `subtopics move`: re-parents the sub-topic under the target topic.
pub fn move_to(id: &str, target_topic_id: &str) -> (r: ApiRequest)
    ensures
        r@ == post_request(
            BASE@ + "/"@ + id@ + "/move"@,
            Map::empty().insert("target_topic_id"@, JsonModel::Text(target_topic_id@)),
        ),
{
    let mut body = RequestBody::new();
    body.set_text("target_topic_id", target_topic_id);
    ApiRequest::post(item_path(BASE, id, "/move"), body)
}

/// `subtopics archive`: soft-archives one sub-topic version.
pub fn archive(id: &str) -> (r: ApiRequest)
    ensures
        r@ == post_request(BASE@ + "/"@ + id@ + "/archive"@, Map::empty()),
{
    ApiRequest::post(item_path(BASE, id, "/archive"), RequestBody::new())
}

/// The body of `subtopics update`: each field only when given.
pub open spec fn subtopic_update_body(
    conclusion: Option<&str>,
    conclusion_type: Option<&str>,
    primary_contributor: Option<&str>,
    data_date: Option<&str>,
) -> BodyModel {
    with_opt_text(with_opt_text(
        with_opt_text(
            with_opt_text(Map::empty(), "topic_conclusion"@, opt_chars(conclusion)),
            "topic_conclusion_type"@,
            opt_chars(conclusion_type),
        ),
        "primary_contributor_email"@,
        opt_chars(primary_contributor),
    ), "data_date"@, opt_chars(data_date))
}

/// `subtopics update`: a PATCH revising one sub-topic (a new version,
/// stamped with `data_date` when given).
pub fn update(
    id: &str,
    conclusion: Option<&str>,
    conclusion_type: Option<&str>,
    primary_contributor: Option<&str>,
    data_date: Option<&str>,
) -> (r: ApiRequest)
    ensures
        r@ == patch_request(
            BASE@ + "/"@ + id@,
            subtopic_update_body(conclusion, conclusion_type, primary_contributor, data_date),
        ),
{
    let mut body = RequestBody::new();
    body.set_opt_text("topic_conclusion", conclusion);
    body.set_opt_text("topic_conclusion_type", conclusion_type);
    body.set_opt_text("primary_contributor_email", primary_contributor);
    body.set_opt_text("data_date", data_date);
    ApiRequest::patch(id_path(BASE, id), body)
}

/// Law: the body of `subtopics update` carries each field under its own
/// member exactly when it is given.
pub proof fn law_subtopic_update_body_carries_its_inputs(
    conclusion: Option<&str>,
    conclusion_type: Option<&str>,
    primary_contributor: Option<&str>,
    data_date: Option<&str>,
)
    ensures
        ({
            let b = subtopic_update_body(conclusion, conclusion_type, primary_contributor, data_date);
            &&& carries_opt_text(b, "topic_conclusion"@, conclusion)
            &&& carries_opt_text(b, "topic_conclusion_type"@, conclusion_type)
            &&& carries_opt_text(b, "primary_contributor_email"@, primary_contributor)
            &&& carries_opt_text(b, "data_date"@, data_date)
        }),
{
    reveal_strlit("topic_conclusion");
    reveal_strlit("topic_conclusion_type");
    reveal_strlit("primary_contributor_email");
    reveal_strlit("data_date");
    let keys = seq!["topic_conclusion"@, "topic_conclusion_type"@, "primary_contributor_email"@, "data_date"@];
    assert(keys[0].len() == 16 && keys[0][0] == 't' && keys[0][1] == 'o');
    assert(keys[1].len() == 21 && keys[1][0] == 't' && keys[1][1] == 'o');
    assert(keys[2].len() == 25 && keys[2][0] == 'p' && keys[2][1] == 'r');
    assert(keys[3].len() == 9 && keys[3][0] == 'd' && keys[3][1] == 'a');
    assert(keys_distinct(keys)) by {
        assert forall|x: int, y: int|
            0 <= x < keys.len() && 0 <= y < keys.len() && x != y implies keys[x] != keys[y] by {
            if keys[x].len() == keys[y].len() && keys[x][0] == keys[y][0] {
                assert(keys[x][1] != keys[y][1]);
            }
        }
    }
    assert(keys[0] != keys[1]);
    assert(keys[0] != keys[2]);
    assert(keys[0] != keys[3]);
    assert(keys[1] != keys[2]);
    assert(keys[1] != keys[3]);
    assert(keys[2] != keys[3]);
}

} // verus!
