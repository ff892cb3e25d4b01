//! `internode teams ...`: browse and create teams.
use vstd::prelude::*;

use crate::json::{carries_opt_text, keys_distinct, opt_chars, with_opt_text, BodyModel, JsonModel, RequestBody};
use crate::request::{get_request, item_path, post_request, ApiRequest};

verus! {

/// Path of the teams API.
pub const BASE: &'static str = "/internode-tools/cli/oi/teams";

/// `teams list`: a GET of every team.
pub fn list() -> (r: ApiRequest)
    ensures
        r@ == get_request(BASE@),
{
    ApiRequest::get(String::from_str(BASE))
}

/// The body of `teams create`: the name, and each optional field when given.
pub open spec fn team_create_body(
    name: Seq<char>,
    key: Option<&str>,
    description: Option<&str>,
    created_date: Option<&str>,
) -> BodyModel {
    with_opt_text(
        with_opt_text(
            with_opt_text(
                Map::empty().insert("name"@, JsonModel::Text(name)),
                "key"@,
                opt_chars(key),
            ),
            "description"@,
            opt_chars(description),
        ),
        "created_date"@,
        opt_chars(created_date),
    )
}

/// `teams create`: a POST of a new team.
pub fn create(name: &str, key: Option<&str>, description: Option<&str>, created_date: Option<&str>) -> (r:
    ApiRequest)
    ensures
        r@ == post_request(BASE@, team_create_body(name@, key, description, created_date)),
{
    let mut body = RequestBody::new();
    body.set_text("name", name);
    body.set_opt_text("key", key);
    body.set_opt_text("description", description);
    body.set_opt_text("created_date", created_date);
    ApiRequest::post(String::from_str(BASE), body)
}

/// `teams set-created-date`: fixes the creation date of one team.
pub fn set_created_date(id: &str, created_date: &str) -> (r: ApiRequest)
    ensures
        r@ == post_request(
            BASE@ + "/"@ + id@ + "/set-created-date"@,
            Map::empty().insert("created_date"@, JsonModel::Text(created_date@)),
        ),
{
    let mut body = RequestBody::new();
    body.set_text("created_date", created_date);
    ApiRequest::post(item_path(BASE, id, "/set-created-date"), body)
}

/// Law: the body of `teams create` carries the name and each optional
/// field under its own member exactly when it is given.
pub proof fn law_team_create_body_carries_its_inputs(
    name: Seq<char>,
    key: Option<&str>,
    description: Option<&str>,
    created_date: Option<&str>,
)
    ensures
        ({
            let b = team_create_body(name, key, description, created_date);
            &&& b["name"@] == JsonModel::Text(name)
            &&& b.dom().contains("name"@)
            &&& carries_opt_text(b, "key"@, key)
            &&& carries_opt_text(b, "description"@, description)
            &&& carries_opt_text(b, "created_date"@, created_date)
        }),
{
    reveal_strlit("name");
    reveal_strlit("key");
    reveal_strlit("description");
    reveal_strlit("created_date");
    let keys = seq!["name"@, "key"@, "description"@, "created_date"@];
    assert(keys[0].len() == 4 && keys[0][0] == 'n' && keys[0][1] == 'a');
    assert(keys[1].len() == 3 && keys[1][0] == 'k' && keys[1][1] == 'e');
    assert(keys[2].len() == 11 && keys[2][0] == 'd' && keys[2][1] == 'e');
    assert(keys[3].len() == 12 && keys[3][0] == 'c' && keys[3][1] == 'r');
    assert(keys_distinct(keys)) by {
        assert forall|x: int, y: int|
            0 <= x < keys.len() && 0 <= y < keys.len() && x != y implies keys[x] != keys[y] by {
            if keys[x].len() == keys[y].len() && keys[x][0] == keys[y][0] {
                assert(keys[x][1] != keys[y][1]);
            }
        }
    }
    assert(keys[0] != keys[1]);
    assert(keys[0] != keys[2]);
    assert(keys[0] != keys[3]);
    assert(keys[1] != keys[2]);
    assert(keys[1] != keys[3]);
    assert(keys[2] != keys[3]);
}

} // verus!
