//! `internode decisions ...`: browse and reorganize decisions.
use vstd::prelude::*;

use crate::commands::{matches_outcome, split_outcome, split_request};
use crate::error::{is_bad_input, CliError};
use crate::json::{
    carries_opt_text, json_array_check, keys_distinct, opt_chars, with_nonempty_list, with_opt_text, BodyModel, JsonModel,
    RequestBody,
};
use crate::request::{
    RequestModel,
    get_request, id_path, int_param, item_path, patch_request, post_request, query_text, sub_path,
    text_param, ApiRequest, QueryParams,
};
use crate::text::string_views;

verus! {

/// Path of the decisions API.
pub const BASE: &'static str = "/internode-tools/cli/oi/decisions";

/// `decisions list`: a GET of the decision list with the given filters
/// (`limit`, `offset`, `search`, in that order, each only when given).
pub fn list(search: Option<&str>, limit: Option<i64>, offset: Option<i64>) -> (r: ApiRequest)
    ensures
        r@ == get_request(
            BASE@ + query_text(
                int_param("limit"@, limit) + int_param("offset"@, offset) + text_param(
                    "search"@,
                    search,
                ),
            ),
        ),
{
    let mut params = QueryParams::new();
    params.push_int("limit", limit);
    params.push_int("offset", offset);
    params.push_text("search", search);
    let qs = params.query_string();
    ApiRequest::get(sub_path(BASE, qs.as_str()))
}

/// `decisions inspect`: a GET of every relationship of one decision.
pub fn inspect(id: &str) -> (r: ApiRequest)
    ensures
        r@ == get_request(BASE@ + "/"@ + id@ + "/relationships"@),
{
    ApiRequest::get(item_path(BASE, id, "/relationships"))
}

/// The scalar fields of a decision, each set only when given.
pub open spec fn decision_fields(
    start: BodyModel,
    description: Option<&str>,
    rationale: Option<&str>,
    status: Option<&str>,
    decision_maker: Option<&str>,
    decision_type: Option<&str>,
    priority: Option<&str>,
    data_date: Option<&str>,
) -> BodyModel {
    with_opt_text(
        with_opt_text(
            with_opt_text(
                with_opt_text(
                    with_opt_text(
                        with_opt_text(
                            with_opt_text(start, "description"@, opt_chars(description)),
                            "rationale"@,
                            opt_chars(rationale),
                        ),
                        "decision_status"@,
                        opt_chars(status),
                    ),
                    "decision_maker_email"@,
                    opt_chars(decision_maker),
                ),
                "decision_type"@,
                opt_chars(decision_type),
            ),
            "priority"@,
            opt_chars(priority),
        ),
        "data_date"@,
        opt_chars(data_date),
    )
}

fn set_decision_fields(
    body: &mut RequestBody,
    description: Option<&str>,
    rationale: Option<&str>,
    status: Option<&str>,
    decision_maker: Option<&str>,
    decision_type: Option<&str>,
    priority: Option<&str>,
    data_date: Option<&str>,
)
    ensures
        final(body)@ == decision_fields(
            old(body)@,
            description,
            rationale,
            status,
            decision_maker,
            decision_type,
            priority,
            data_date,
        ),
{
    body.set_opt_text("description", description);
    body.set_opt_text("rationale", rationale);
    body.set_opt_text("decision_status", status);
    body.set_opt_text("decision_maker_email", decision_maker);
    body.set_opt_text("decision_type", decision_type);
    body.set_opt_text("priority", priority);
    body.set_opt_text("data_date", data_date);
}

/// `decisions create`: a POST of a new decision with its title and the
/// given optional fields.
pub fn create(
    title: &str,
    description: Option<&str>,
    rationale: Option<&str>,
    status: Option<&str>,
    decision_maker: Option<&str>,
    decision_type: Option<&str>,
    priority: Option<&str>,
    data_date: Option<&str>,
) -> (r: ApiRequest)
    ensures
        r@ == post_request(
            BASE@,
            decision_fields(
                Map::empty().insert("decision_title"@, JsonModel::Text(title@)),
                description,
                rationale,
                status,
                decision_maker,
                decision_type,
                priority,
                data_date,
            ),
        ),
{
    let mut body = RequestBody::new();
    body.set_text("decision_title", title);
    set_decision_fields(
        &mut body,
        description,
        rationale,
        status,
        decision_maker,
        decision_type,
        priority,
        data_date,
    );
    ApiRequest::post(String::from_str(BASE), body)
}

/// `decisions version set-date`: re-dates one decision version in place.
pub fn version_set_date(version_id: &str, data_date: &str) -> (r: ApiRequest)
    ensures
        r@ == post_request(
            BASE@ + "/versions"@ + "/"@ + version_id@ + "/set-date"@,
            Map::empty().insert("data_date"@, JsonModel::Text(data_date@)),
        ),
{
    let mut body = RequestBody::new();
    body.set_text("data_date", data_date);
    ApiRequest::post(item_path(sub_path(BASE, "/versions").as_str(), version_id, "/set-date"), body)
}

/// `decisions version delete`: soft-deletes one decision version.
pub fn version_delete(version_id: &str) -> (r: ApiRequest)
    ensures
        r@ == post_request(
            BASE@ + "/versions"@ + "/"@ + version_id@ + "/delete"@,
            Map::empty(),
        ),
{
    ApiRequest::post(
        item_path(sub_path(BASE, "/versions").as_str(), version_id, "/delete"),
        RequestBody::new(),
    )
}

/// `decisions update`: a PATCH of the given scalar fields of one decision.
pub fn update(
    id: &str,
    title: Option<&str>,
    description: Option<&str>,
    rationale: Option<&str>,
    status: Option<&str>,
    decision_maker: Option<&str>,
    decision_type: Option<&str>,
    priority: Option<&str>,
    data_date: Option<&str>,
) -> (r: ApiRequest)
    ensures
        r@ == patch_request(
            BASE@ + "/"@ + id@,
            decision_fields(
                with_opt_text(Map::empty(), "decision_title"@, opt_chars(title)),
                description,
                rationale,
                status,
                decision_maker,
                decision_type,
                priority,
                data_date,
            ),
        ),
{
    let mut body = RequestBody::new();
    body.set_opt_text("decision_title", title);
    set_decision_fields(
        &mut body,
        description,
        rationale,
        status,
        decision_maker,
        decision_type,
        priority,
        data_date,
    );
    ApiRequest::patch(id_path(BASE, id), body)
}

/// `decisions archive`: soft-archives one decision.
pub fn archive(id: &str) -> (r: ApiRequest)
    ensures
        r@ == post_request(BASE@ + "/"@ + id@ + "/archive"@, Map::empty()),
{
    ApiRequest::post(item_path(BASE, id, "/archive"), RequestBody::new())
}

/// `decisions merge`: merges the source decision into the target.
pub fn merge(source_id: &str, target_id: &str) -> (r: ApiRequest)
    ensures
        r@ == post_request(
            BASE@ + "/"@ + source_id@ + "/merge"@,
            Map::empty().insert("target_decision_id"@, JsonModel::Text(target_id@)),
        ),
{
    let mut body = RequestBody::new();
    body.set_text("target_decision_id", target_id);
    ApiRequest::post(item_path(BASE, source_id, "/merge"), body)
}

/// Exactly one of the three edge targets is given.
pub open spec fn exactly_one_target(
    sub_topic: Option<&str>,
    task: Option<&str>,
    intent: Option<&str>,
) -> bool {
    ||| sub_topic is Some && task is None && intent is None
    ||| sub_topic is None && task is Some && intent is None
    ||| sub_topic is None && task is None && intent is Some
}

/// The body naming one edge: its kind (`sub_topic`, `task` or `intent`,
/// after the target given), its target, and the relationship type when one
/// is given.
pub open spec fn edge_body(
    sub_topic: Option<&str>,
    task: Option<&str>,
    intent: Option<&str>,
    rel_type: Option<&str>,
) -> BodyModel {
    let (kind, target) = if sub_topic is Some {
        ("sub_topic"@, sub_topic->0@)
    } else if task is Some {
        ("task"@, task->0@)
    } else {
        ("intent"@, intent->0@)
    };
    with_opt_text(
        Map::empty().insert("kind"@, JsonModel::Text(kind)).insert(
            "target_id"@,
            JsonModel::Text(target),
        ),
        "rel_type"@,
        opt_chars(rel_type),
    )
}

/// The message for a link or unlink that does not name exactly one target.
pub open spec fn one_target_message() -> Seq<char> {
    "Specify exactly one of --sub-topic, --task, --intent."@
}

fn build_edge_body(
    sub_topic: Option<&str>,
    task: Option<&str>,
    intent: Option<&str>,
    rel_type: Option<&str>,
) -> (r: Result<RequestBody, CliError>)
    ensures
        match r {
            Ok(b) => exactly_one_target(sub_topic, task, intent) && b@ == edge_body(
                sub_topic,
                task,
                intent,
                rel_type,
            ),
            Err(e) => !exactly_one_target(sub_topic, task, intent) && is_bad_input(
                e,
                one_target_message(),
            ),
        },
{
    let mut provided: u8 = 0;
    if sub_topic.is_some() {
        provided = provided + 1;
    }
    if task.is_some() {
        provided = provided + 1;
    }
    if intent.is_some() {
        provided = provided + 1;
    }
    if provided != 1 {
        return Err(CliError::bad_input("Specify exactly one of --sub-topic, --task, --intent."));
    }
    let mut body = RequestBody::new();
    match sub_topic {
        Some(v) => {
            body.set_text("kind", "sub_topic");
            body.set_text("target_id", v);
        },
        None => match task {
            Some(v) => {
                body.set_text("kind", "task");
                body.set_text("target_id", v);
            },
            None => match intent {
                Some(v) => {
                    body.set_text("kind", "intent");
                    body.set_text("target_id", v);
                },
                None => {},
            },
        },
    }
    body.set_opt_text("rel_type", rel_type);
    Ok(body)
}

/// What a link (`action` = `add`) or unlink (`action` = `remove`) of one
/// edge of decision `id` comes to: the POST to
/// `<decision>/edges/<action>` naming the edge when exactly one target is
/// given, a `BadInput` error otherwise.
pub open spec fn edge_outcome(
    id: Seq<char>,
    action: Seq<char>,
    sub_topic: Option<&str>,
    task: Option<&str>,
    intent: Option<&str>,
    rel_type: Option<&str>,
) -> Result<RequestModel, Seq<char>> {
    if exactly_one_target(sub_topic, task, intent) {
        Ok(
            post_request(
                BASE@ + "/"@ + id + "/edges/"@ + action,
                edge_body(sub_topic, task, intent, rel_type),
            ),
        )
    } else {
        Err(one_target_message())
    }
}

fn edge_request(
    id: &str,
    action: &str,
    sub_topic: Option<&str>,
    task: Option<&str>,
    intent: Option<&str>,
    rel_type: Option<&str>,
) -> (r: Result<ApiRequest, CliError>)
    ensures
        matches_outcome(r, edge_outcome(id@, action@, sub_topic, task, intent, rel_type)),
{
    let body = build_edge_body(sub_topic, task, intent, rel_type)?;
    let mut path = item_path(BASE, id, "/edges/");
    path.append(action);
    Ok(ApiRequest::post(path, body))
}

/// `decisions link`: adds one edge from the decision; exactly one target
/// must be given, otherwise `BadInput`.
pub fn link(
    id: &str,
    sub_topic: Option<&str>,
    task: Option<&str>,
    intent: Option<&str>,
    rel_type: Option<&str>,
) -> (r: Result<ApiRequest, CliError>)
    ensures
        matches_outcome(r, edge_outcome(id@, "add"@, sub_topic, task, intent, rel_type)),
{
    edge_request(id, "add", sub_topic, task, intent, rel_type)
}

/// `decisions unlink`: removes one edge from the decision; exactly one
/// target must be given, otherwise `BadInput`.
pub fn unlink(
    id: &str,
    sub_topic: Option<&str>,
    task: Option<&str>,
    intent: Option<&str>,
    rel_type: Option<&str>,
) -> (r: Result<ApiRequest, CliError>)
    ensures
        matches_outcome(r, edge_outcome(id@, "remove"@, sub_topic, task, intent, rel_type)),
{
    edge_request(id, "remove", sub_topic, task, intent, rel_type)
}

/// `decisions split`: splits the decision after the plan text `plan` (the
/// contents of the plan file), which must be a JSON array.
pub fn split(source_id: &str, plan: &str, archive_source: bool, dry_run: bool) -> (r: Result<
    ApiRequest,
    CliError,
>)
    ensures
        matches_outcome(
            r,
            split_outcome(BASE@, source_id@, plan@, json_array_check(plan@), archive_source, dry_run),
        ),
{
    split_request(BASE, source_id, plan, archive_source, dry_run)
}

/// The body of `normalize-edges`.
pub open spec fn normalize_body(
    decision_id: Option<&str>,
    sub_topic_prefer: Seq<String>,
    task_prefer: Seq<String>,
    dry_run: bool,
) -> BodyModel {
    with_nonempty_list(
        with_nonempty_list(
            with_opt_text(
                Map::empty().insert("dry_run"@, JsonModel::Bool(dry_run)),
                "decision_id"@,
                opt_chars(decision_id),
            ),
            "sub_topic_prefer"@,
            string_views(sub_topic_prefer),
        ),
        "task_prefer"@,
        string_views(task_prefer),
    )
}

/// `decisions normalize-edges`: collapses contradictory relationship types,
/// for one decision or (without `decision_id`) for every live decision;
/// preference orders are sent only when given.
pub fn normalize_edges(
    decision_id: Option<&str>,
    sub_topic_prefer: &[String],
    task_prefer: &[String],
    dry_run: bool,
) -> (r: ApiRequest)
    ensures
        r@ == post_request(
            BASE@ + "/normalize-edges"@,
            normalize_body(decision_id, sub_topic_prefer@, task_prefer@, dry_run),
        ),
{
    let mut body = RequestBody::new();
    body.set_bool("dry_run", dry_run);
    body.set_opt_text("decision_id", decision_id);
    body.set_nonempty_list("sub_topic_prefer", sub_topic_prefer);
    body.set_nonempty_list("task_prefer", task_prefer);
    ApiRequest::post(sub_path(BASE, "/normalize-edges"), body)
}

/// Law: `link` and `unlink` with the same arguments are refused on the same
/// inputs, with the same message, and otherwise send the same body, one to
/// `<decision>/edges/add` and the other to `<decision>/edges/remove`.
pub proof fn law_link_unlink_name_the_same_edge(
    id: Seq<char>,
    sub_topic: Option<&str>,
    task: Option<&str>,
    intent: Option<&str>,
    rel_type: Option<&str>,
)
    ensures
        ({
            let added = edge_outcome(id, "add"@, sub_topic, task, intent, rel_type);
            let removed = edge_outcome(id, "remove"@, sub_topic, task, intent, rel_type);
            &&& (added is Ok <==> removed is Ok)
            &&& added is Ok ==> added->Ok_0.body == removed->Ok_0.body && added->Ok_0.method
                == removed->Ok_0.method
            &&& added is Err ==> added == removed
        }),
{
}

/// Law: when exactly one target is given, the edge body names it: its kind
/// follows the target given, its target id is that argument, and the
/// relationship type is sent exactly when one is given, whatever the kind
/// of target (without it, the server matches edges of every type).
pub proof fn law_edge_body_names_the_edge(
    sub_topic: Option<&str>,
    task: Option<&str>,
    intent: Option<&str>,
    rel_type: Option<&str>,
)
    requires
        exactly_one_target(sub_topic, task, intent),
    ensures
        ({
            let b = edge_body(sub_topic, task, intent, rel_type);
            &&& sub_topic matches Some(v) ==> b["kind"@] == JsonModel::Text("sub_topic"@)
                && b["target_id"@] == JsonModel::Text(v@)
            &&& task matches Some(v) ==> b["kind"@] == JsonModel::Text("task"@) && b["target_id"@]
                == JsonModel::Text(v@)
            &&& intent matches Some(v) ==> b["kind"@] == JsonModel::Text("intent"@)
                && b["target_id"@] == JsonModel::Text(v@)
            &&& rel_type matches Some(t) ==> b.dom().contains("rel_type"@) && b["rel_type"@]
                == JsonModel::Text(t@)
            &&& rel_type is None ==> b.dom() =~= set!["kind"@, "target_id"@]
        }),
{
    reveal_strlit("kind");
    reveal_strlit("target_id");
    reveal_strlit("rel_type");
    assert("kind"@[0] == 'k');
    assert("target_id"@[0] == 't');
    assert("rel_type"@[0] == 'r');
    assert("kind"@ != "target_id"@);
    assert("kind"@ != "rel_type"@);
    assert("target_id"@ != "rel_type"@);
}

/// Law: the `normalize-edges` body carries the caller's dry-run flag, the
/// decision id exactly when one is given, and each preference order exactly
/// when it is not empty.
pub proof fn law_normalize_body_carries_its_inputs(
    decision_id: Option<&str>,
    sub_topic_prefer: Seq<String>,
    task_prefer: Seq<String>,
    dry_run: bool,
)
    ensures
        ({
            let b = normalize_body(decision_id, sub_topic_prefer, task_prefer, dry_run);
            &&& b.dom().contains("dry_run"@)
            &&& b["dry_run"@] == JsonModel::Bool(dry_run)
            &&& b.dom().contains("decision_id"@) == decision_id is Some
            &&& decision_id matches Some(d) ==> b["decision_id"@] == JsonModel::Text(d@)
            &&& b.dom().contains("sub_topic_prefer"@) == (sub_topic_prefer.len() > 0)
            &&& sub_topic_prefer.len() > 0 ==> b["sub_topic_prefer"@] == JsonModel::TextList(
                string_views(sub_topic_prefer),
            )
            &&& b.dom().contains("task_prefer"@) == (task_prefer.len() > 0)
            &&& task_prefer.len() > 0 ==> b["task_prefer"@] == JsonModel::TextList(
                string_views(task_prefer),
            )
        }),
{
    reveal_strlit("dry_run");
    reveal_strlit("decision_id");
    reveal_strlit("sub_topic_prefer");
    reveal_strlit("task_prefer");
    assert("dry_run"@[0] == 'd' && "dry_run"@[1] == 'r');
    assert("decision_id"@[0] == 'd' && "decision_id"@[1] == 'e');
    assert("sub_topic_prefer"@[0] == 's');
    assert("task_prefer"@[0] == 't');
    assert("dry_run"@ != "decision_id"@);
    assert("dry_run"@ != "sub_topic_prefer"@);
    assert("dry_run"@ != "task_prefer"@);
    assert("decision_id"@ != "sub_topic_prefer"@);
    assert("decision_id"@ != "task_prefer"@);
    assert("sub_topic_prefer"@ != "task_prefer"@);
}

/// Law: the body of `decisions create` and `decisions update` carries the
/// title and each optional field under its own member, exactly when it is
/// given.
pub proof fn law_decision_fields_carry_their_inputs(
    title: Option<&str>,
    description: Option<&str>,
    rationale: Option<&str>,
    status: Option<&str>,
    decision_maker: Option<&str>,
    decision_type: Option<&str>,
    priority: Option<&str>,
    data_date: Option<&str>,
)
    ensures
        ({
            let b = decision_fields(
                with_opt_text(Map::empty(), "decision_title"@, opt_chars(title)),
                description,
                rationale,
                status,
                decision_maker,
                decision_type,
                priority,
                data_date,
            );
            &&& carries_opt_text(b, "decision_title"@, title)
            &&& carries_opt_text(b, "description"@, description)
            &&& carries_opt_text(b, "rationale"@, rationale)
            &&& carries_opt_text(b, "decision_status"@, status)
            &&& carries_opt_text(b, "decision_maker_email"@, decision_maker)
            &&& carries_opt_text(b, "decision_type"@, decision_type)
            &&& carries_opt_text(b, "priority"@, priority)
            &&& carries_opt_text(b, "data_date"@, data_date)
            &&& b.dom().len() <= 8
        }),
{
    reveal_strlit("decision_title");
    reveal_strlit("description");
    reveal_strlit("rationale");
    reveal_strlit("decision_status");
    reveal_strlit("decision_maker_email");
    reveal_strlit("decision_type");
    reveal_strlit("priority");
    reveal_strlit("data_date");
    let keys = seq!["decision_title"@, "description"@, "rationale"@, "decision_status"@, "decision_maker_email"@, "decision_type"@, "priority"@, "data_date"@];
    assert(keys[0].len() == 14 && keys[0][0] == 'd' && keys[0][1] == 'e');
    assert(keys[1].len() == 11 && keys[1][0] == 'd' && keys[1][1] == 'e');
    assert(keys[2].len() == 9 && keys[2][0] == 'r' && keys[2][1] == 'a');
    assert(keys[3].len() == 15 && keys[3][0] == 'd' && keys[3][1] == 'e');
    assert(keys[4].len() == 20 && keys[4][0] == 'd' && keys[4][1] == 'e');
    assert(keys[5].len() == 13 && keys[5][0] == 'd' && keys[5][1] == 'e');
    assert(keys[6].len() == 8 && keys[6][0] == 'p' && keys[6][1] == 'r');
    assert(keys[7].len() == 9 && keys[7][0] == 'd' && keys[7][1] == 'a');
    assert(keys_distinct(keys)) by {
        assert forall|x: int, y: int|
            0 <= x < keys.len() && 0 <= y < keys.len() && x != y implies keys[x] != keys[y] by {
            if keys[x].len() == keys[y].len() && keys[x][0] == keys[y][0] {
                assert(keys[x][1] != keys[y][1]);
            }
        }
    }
    assert(keys[0] != keys[1]);
    assert(keys[0] != keys[2]);
    assert(keys[0] != keys[3]);
    assert(keys[0] != keys[4]);
    assert(keys[0] != keys[5]);
    assert(keys[0] != keys[6]);
    assert(keys[0] != keys[7]);
    assert(keys[1] != keys[2]);
    assert(keys[1] != keys[3]);
    assert(keys[1] != keys[4]);
    assert(keys[1] != keys[5]);
    assert(keys[1] != keys[6]);
    assert(keys[1] != keys[7]);
    assert(keys[2] != keys[3]);
    assert(keys[2] != keys[4]);
    assert(keys[2] != keys[5]);
    assert(keys[2] != keys[6]);
    assert(keys[2] != keys[7]);
    assert(keys[3] != keys[4]);
    assert(keys[3] != keys[5]);
    assert(keys[3] != keys[6]);
    assert(keys[3] != keys[7]);
    assert(keys[4] != keys[5]);
    assert(keys[4] != keys[6]);
    assert(keys[4] != keys[7]);
    assert(keys[5] != keys[6]);
    assert(keys[5] != keys[7]);
    assert(keys[6] != keys[7]);
    let b = decision_fields(
        with_opt_text(Map::empty(), "decision_title"@, opt_chars(title)),
        description,
        rationale,
        status,
        decision_maker,
        decision_type,
        priority,
        data_date,
    );
    assert(b.dom().subset_of(keys.to_set()));
    keys.unique_seq_to_set();
    vstd::set_lib::lemma_len_subset(b.dom(), keys.to_set());
}

} // verus!
