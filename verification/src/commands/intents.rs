//! `internode intents ...`: browse and reorganize intents.
use vstd::prelude::*;

use crate::commands::{matches_outcome, split_outcome, split_request};
use crate::error::{is_bad_input, CliError};
use crate::json::{carries_opt_text, json_array_check, keys_distinct, opt_chars, with_opt_text, BodyModel, JsonModel, RequestBody};
use crate::request::{
    get_request, id_path, int_param, item_path, patch_request, post_request, query_text, sub_path,
    ApiRequest, QueryParams,
};
use crate::text::{comma_items, split_comma_list, string_views};

verus! {

/// Path of the intents API.
pub const BASE: &'static str = "/internode-tools/cli/oi/intents";

/// `intents list`: a GET of the intent list (`limit`, `offset`, each only
/// when given).
pub fn list(limit: Option<i64>, offset: Option<i64>) -> (r: ApiRequest)
    ensures
        r@ == get_request(
            BASE@ + query_text(int_param("limit"@, limit) + int_param("offset"@, offset)),
        ),
{
    let mut params = QueryParams::new();
    params.push_int("limit", limit);
    params.push_int("offset", offset);
    let qs = params.query_string();
    ApiRequest::get(sub_path(BASE, qs.as_str()))
}

/// `intents inspect`: a GET of every supporting decision of one intent.
pub fn inspect(id: &str) -> (r: ApiRequest)
    ensures
        r@ == get_request(BASE@ + "/"@ + id@ + "/relationships"@),
{
    ApiRequest::get(item_path(BASE, id, "/relationships"))
}

/// The body of `intents update`: each field only when given; `signals` is
/// the comma-separated list split into its trimmed, non-empty entries;
/// `data_date` stamps the new version with a historical date.
pub open spec fn intent_update_body(
    title: Option<&str>,
    statement: Option<&str>,
    scope: Option<&str>,
    signals: Option<&str>,
    data_date: Option<&str>,
) -> BodyModel {
    let m = with_opt_text(
        with_opt_text(
            with_opt_text(Map::empty(), "intent_title"@, opt_chars(title)),
            "statement"@,
            opt_chars(statement),
        ),
        "scope"@,
        opt_chars(scope),
    );
    let m = match signals {
        Some(s) => m.insert("signals"@, JsonModel::TextList(comma_items(s@))),
        None => m,
    };
    with_opt_text(m, "data_date"@, opt_chars(data_date))
}

/// `intents update`: a PATCH of the given fields of one intent (a new
/// version, stamped with `data_date` when given).
pub fn update(
    id: &str,
    title: Option<&str>,
    statement: Option<&str>,
    scope: Option<&str>,
    signals: Option<&str>,
    data_date: Option<&str>,
) -> (r: ApiRequest)
    ensures
        r@ == patch_request(
            BASE@ + "/"@ + id@,
            intent_update_body(title, statement, scope, signals, data_date),
        ),
{
    let mut body = RequestBody::new();
    body.set_opt_text("intent_title", title);
    body.set_opt_text("statement", statement);
    body.set_opt_text("scope", scope);
    if let Some(sigs) = signals {
        let parts = split_comma_list(sigs);
        body.set_text_list("signals", parts.as_slice());
    }
    body.set_opt_text("data_date", data_date);
    ApiRequest::patch(id_path(BASE, id), body)
}

/// `intents archive`: soft-archives one intent.
pub fn archive(id: &str) -> (r: ApiRequest)
    ensures
        r@ == post_request(BASE@ + "/"@ + id@ + "/archive"@, Map::empty()),
{
    ApiRequest::post(item_path(BASE, id, "/archive"), RequestBody::new())
}

/// `intents merge`: merges the source intent into the target.
pub fn merge(source_id: &str, target_id: &str) -> (r: ApiRequest)
    ensures
        r@ == post_request(
            BASE@ + "/"@ + source_id@ + "/merge"@,
            Map::empty().insert("target_intent_id"@, JsonModel::Text(target_id@)),
        ),
{
    let mut body = RequestBody::new();
    body.set_text("target_intent_id", target_id);
    ApiRequest::post(item_path(BASE, source_id, "/merge"), body)
}

/// The message for a signal command without signals.
pub open spec fn no_signal_message() -> Seq<char> {
    "At least one --signal is required."@
}

/// The body of a signal command: the signals, and the version date when
/// given.
pub open spec fn signals_body(signals: Seq<String>, data_date: Option<&str>) -> BodyModel {
    with_opt_text(
        Map::empty().insert("signals"@, JsonModel::TextList(string_views(signals))),
        "data_date"@,
        opt_chars(data_date),
    )
}

fn signals_request(id: &str, tail: &str, signals: &[String], data_date: Option<&str>) -> (r: Result<
    ApiRequest,
    CliError,
>)
    ensures
        match r {
            Ok(req) => signals@.len() > 0 && req@ == post_request(
                BASE@ + "/"@ + id@ + tail@,
                signals_body(signals@, data_date),
            ),
            Err(e) => signals@.len() == 0 && is_bad_input(e, no_signal_message()),
        },
{
    if signals.len() == 0 {
        return Err(CliError::bad_input("At least one --signal is required."));
    }
    let mut body = RequestBody::new();
    body.set_text_list("signals", signals);
    body.set_opt_text("data_date", data_date);
    Ok(ApiRequest::post(item_path(BASE, id, tail), body))
}

/// `intents add-signal`: adds the signals to the intent; at least one is
/// required, otherwise `BadInput`.
pub fn add_signal(id: &str, signals: &[String], data_date: Option<&str>) -> (r: Result<
    ApiRequest,
    CliError,
>)
    ensures
        match r {
            Ok(req) => signals@.len() > 0 && req@ == post_request(
                BASE@ + "/"@ + id@ + "/signals/add"@,
                signals_body(signals@, data_date),
            ),
            Err(e) => signals@.len() == 0 && is_bad_input(e, no_signal_message()),
        },
{
    signals_request(id, "/signals/add", signals, data_date)
}

/// `intents remove-signal`: removes the signals from the intent; at least
/// one is required, otherwise `BadInput`.
pub fn remove_signal(id: &str, signals: &[String], data_date: Option<&str>) -> (r: Result<
    ApiRequest,
    CliError,
>)
    ensures
        match r {
            Ok(req) => signals@.len() > 0 && req@ == post_request(
                BASE@ + "/"@ + id@ + "/signals/remove"@,
                signals_body(signals@, data_date),
            ),
            Err(e) => signals@.len() == 0 && is_bad_input(e, no_signal_message()),
        },
{
    signals_request(id, "/signals/remove", signals, data_date)
}

/// `intents set-scope`: sets the scope of the intent, as given (an empty
/// scope clears it), with the version date when given.
pub fn set_scope(id: &str, scope: &str, data_date: Option<&str>) -> (r: ApiRequest)
    ensures
        r@ == post_request(
            BASE@ + "/"@ + id@ + "/set-scope"@,
            with_opt_text(
                Map::empty().insert("scope"@, JsonModel::Text(scope@)),
                "data_date"@,
                opt_chars(data_date),
            ),
        ),
{
    let mut body = RequestBody::new();
    body.set_text("scope", scope);
    body.set_opt_text("data_date", data_date);
    ApiRequest::post(item_path(BASE, id, "/set-scope"), body)
}

/// `intents split`: splits the intent after the plan text `plan` (the
/// contents of the plan file), which must be a JSON array.
pub fn split(source_id: &str, plan: &str, archive_source: bool, dry_run: bool) -> (r: Result<
    ApiRequest,
    CliError,
>)
    ensures
        matches_outcome(
            r,
            split_outcome(BASE@, source_id@, plan@, json_array_check(plan@), archive_source, dry_run),
        ),
{
    split_request(BASE, source_id, plan, archive_source, dry_run)
}

/// The message for a consolidation without sources.
pub open spec fn no_source_message() -> Seq<char> {
    "At least one --source intent id is required."@
}

/// The body of `intents consolidate`.
pub open spec fn consolidate_body(
    target_id: Seq<char>,
    source_ids: Seq<String>,
    statement_strategy: Seq<char>,
    scope_strategy: Seq<char>,
    signals_strategy: Seq<char>,
    dry_run: bool,
    data_date: Option<&str>,
) -> BodyModel {
    with_opt_text(Map::empty().insert("target_intent_id"@, JsonModel::Text(target_id)).insert(
        "source_intent_ids"@,
        JsonModel::TextList(string_views(source_ids)),
    ).insert("statement_strategy"@, JsonModel::Text(statement_strategy)).insert(
        "scope_strategy"@,
        JsonModel::Text(scope_strategy),
    ).insert("signals_strategy"@, JsonModel::Text(signals_strategy)).insert(
        "dry_run"@,
        JsonModel::Bool(dry_run),
    ), "data_date"@, opt_chars(data_date))
}

/// `intents consolidate`: folds the source intents into the target; at
/// least one source is required, otherwise `BadInput`. The new target
/// version is stamped with `data_date` when given.
pub fn consolidate(
    target_id: &str,
    source_ids: &[String],
    statement_strategy: &str,
    scope_strategy: &str,
    signals_strategy: &str,
    dry_run: bool,
    data_date: Option<&str>,
) -> (r: Result<ApiRequest, CliError>)
    ensures
        match r {
            Ok(req) => source_ids@.len() > 0 && req@ == post_request(
                BASE@ + "/consolidate"@,
                consolidate_body(
                    target_id@,
                    source_ids@,
                    statement_strategy@,
                    scope_strategy@,
                    signals_strategy@,
                    dry_run,
                    data_date,
                ),
            ),
            Err(e) => source_ids@.len() == 0 && is_bad_input(e, no_source_message()),
        },
{
    if source_ids.len() == 0 {
        return Err(CliError::bad_input("At least one --source intent id is required."));
    }
    let mut body = RequestBody::new();
    body.set_text("target_intent_id", target_id);
    body.set_text_list("source_intent_ids", source_ids);
    body.set_text("statement_strategy", statement_strategy);
    body.set_text("scope_strategy", scope_strategy);
    body.set_text("signals_strategy", signals_strategy);
    body.set_bool("dry_run", dry_run);
    body.set_opt_text("data_date", data_date);
    Ok(ApiRequest::post(sub_path(BASE, "/consolidate"), body))
}

/// Law: the consolidation body carries the target, the sources, the three
/// strategies and the caller's dry-run flag, each under its own member, and
/// the version date exactly when one is given.
pub proof fn law_consolidate_body_carries_its_inputs(
    target_id: Seq<char>,
    source_ids: Seq<String>,
    statement_strategy: Seq<char>,
    scope_strategy: Seq<char>,
    signals_strategy: Seq<char>,
    dry_run: bool,
    data_date: Option<&str>,
)
    ensures
        ({
            let b = consolidate_body(
                target_id,
                source_ids,
                statement_strategy,
                scope_strategy,
                signals_strategy,
                dry_run,
                data_date,
            );
            &&& b["target_intent_id"@] == JsonModel::Text(target_id)
            &&& b["source_intent_ids"@] == JsonModel::TextList(string_views(source_ids))
            &&& b["statement_strategy"@] == JsonModel::Text(statement_strategy)
            &&& b["scope_strategy"@] == JsonModel::Text(scope_strategy)
            &&& b["signals_strategy"@] == JsonModel::Text(signals_strategy)
            &&& b["dry_run"@] == JsonModel::Bool(dry_run)
            &&& b.dom().contains("data_date"@) == data_date is Some
            &&& data_date matches Some(d) ==> b["data_date"@] == JsonModel::Text(d@)
        }),
{
    reveal_strlit("target_intent_id");
    reveal_strlit("source_intent_ids");
    reveal_strlit("statement_strategy");
    reveal_strlit("scope_strategy");
    reveal_strlit("signals_strategy");
    reveal_strlit("dry_run");
    reveal_strlit("data_date");
    let keys = seq![
        "target_intent_id"@,
        "source_intent_ids"@,
        "statement_strategy"@,
        "scope_strategy"@,
        "signals_strategy"@,
        "dry_run"@,
        "data_date"@,
    ];
    assert(keys[0][0] == 't');
    assert(keys[1][0] == 's' && keys[1][1] == 'o');
    assert(keys[2][0] == 's' && keys[2][1] == 't');
    assert(keys[3][0] == 's' && keys[3][1] == 'c');
    assert(keys[4][0] == 's' && keys[4][1] == 'i');
    assert(keys[5][0] == 'd' && keys[5][1] == 'r');
    assert(keys[6][0] == 'd' && keys[6][1] == 'a');
    assert forall|x: int, y: int| 0 <= x < 7 && 0 <= y < 7 && x != y implies keys[x] != keys[y] by {
        if keys[x][0] == keys[y][0] {
            assert(keys[x][1] != keys[y][1]);
        }
    }
    assert(keys[5] != keys[0] && keys[5] != keys[1] && keys[5] != keys[2] && keys[5] != keys[3]
        && keys[5] != keys[4]);
    assert(keys[4] != keys[0] && keys[4] != keys[1] && keys[4] != keys[2] && keys[4] != keys[3]);
    assert(keys[3] != keys[0] && keys[3] != keys[1] && keys[3] != keys[2]);
    assert(keys[2] != keys[0] && keys[2] != keys[1]);
    assert(keys[1] != keys[0]);
    assert(keys[6] != keys[0] && keys[6] != keys[1] && keys[6] != keys[2] && keys[6] != keys[3]
        && keys[6] != keys[4] && keys[6] != keys[5]);
}

/// Law: the body of `intents update` carries each field under its own
/// member exactly when it is given, the signals as the entries of the
/// comma-separated list; and a signal command's body carries the signals
/// and the version date when given.
pub proof fn law_intent_bodies_carry_their_inputs(
    title: Option<&str>,
    statement: Option<&str>,
    scope: Option<&str>,
    signals: Option<&str>,
    data_date: Option<&str>,
    signal_list: Seq<String>,
)
    ensures
        ({
            let b = intent_update_body(title, statement, scope, signals, data_date);
            &&& carries_opt_text(b, "intent_title"@, title)
            &&& carries_opt_text(b, "statement"@, statement)
            &&& carries_opt_text(b, "scope"@, scope)
            &&& b.dom().contains("signals"@) == signals is Some
            &&& signals matches Some(s) ==> b["signals"@] == JsonModel::TextList(comma_items(s@))
            &&& carries_opt_text(b, "data_date"@, data_date)
        }),
        ({
            let b = signals_body(signal_list, data_date);
            &&& b["signals"@] == JsonModel::TextList(string_views(signal_list))
            &&& b.dom().contains("signals"@)
            &&& carries_opt_text(b, "data_date"@, data_date)
        }),
{
    reveal_strlit("intent_title");
    reveal_strlit("statement");
    reveal_strlit("scope");
    reveal_strlit("signals");
    reveal_strlit("data_date");
    let keys = seq!["intent_title"@, "statement"@, "scope"@, "signals"@, "data_date"@];
    assert(keys[0].len() == 12 && keys[0][0] == 'i' && keys[0][1] == 'n');
    assert(keys[1].len() == 9 && keys[1][0] == 's' && keys[1][1] == 't');
    assert(keys[2].len() == 5 && keys[2][0] == 's' && keys[2][1] == 'c');
    assert(keys[3].len() == 7 && keys[3][0] == 's' && keys[3][1] == 'i');
    assert(keys[4].len() == 9 && keys[4][0] == 'd' && keys[4][1] == 'a');
    assert(keys_distinct(keys)) by {
        assert forall|x: int, y: int|
            0 <= x < keys.len() && 0 <= y < keys.len() && x != y implies keys[x] != keys[y] by {
            if keys[x].len() == keys[y].len() && keys[x][0] == keys[y][0] {
                assert(keys[x][1] != keys[y][1]);
            }
        }
    }
    assert(keys[0] != keys[1]);
    assert(keys[0] != keys[2]);
    assert(keys[0] != keys[3]);
    assert(keys[0] != keys[4]);
    assert(keys[1] != keys[2]);
    assert(keys[1] != keys[3]);
    assert(keys[1] != keys[4]);
    assert(keys[2] != keys[3]);
    assert(keys[2] != keys[4]);
    assert(keys[3] != keys[4]);
}

} // verus!
