//! The requests behind each command, one module per command group.
use vstd::prelude::*;

use crate::error::{is_bad_input, CliError};
use crate::json::{json_array_check, BodyModel, JsonModel, JsonValue, RequestBody};
use crate::request::{item_path, post_request, ApiRequest, RequestModel};

pub mod cypher;
pub mod decisions;
pub mod diagnose;
pub mod embeddings;
pub mod entity;
pub mod graph;
pub mod intents;
pub mod repair;
pub mod replace;
pub mod subtopics;
pub mod teams;
pub mod topics;

verus! {

/// The body of a split: the plan document, whether to archive the source,
/// and whether this is a dry run.
pub open spec fn split_body(plan: Seq<char>, archive_source: bool, dry_run: bool) -> BodyModel {
    Map::empty().insert("splits"@, JsonModel::Document(plan)).insert(
        "archive_source"@,
        JsonModel::Bool(archive_source),
    ).insert("dry_run"@, JsonModel::Bool(dry_run))
}

/// What a split of `source_id` under `base` comes to, given what parsing
/// the plan text gave (`check`, as `json_array_check` states it): the POST
/// to `<base>/<source_id>/split` when the plan is a JSON array, otherwise a
/// `BadInput` error whose message says why.
pub open spec fn split_outcome(
    base: Seq<char>,
    source_id: Seq<char>,
    plan: Seq<char>,
    check: Result<bool, Seq<char>>,
    archive_source: bool,
    dry_run: bool,
) -> Result<RequestModel, Seq<char>> {
    match check {
        Ok(true) => Ok(
            post_request(
                base + "/"@ + source_id + "/split"@,
                split_body(plan, archive_source, dry_run),
            ),
        ),
        Ok(false) => Err("Splits file must contain a JSON array of entries."@),
        Err(m) => Err("Splits file is not valid JSON: "@ + m),
    }
}

/// Whether `r` is the outcome `o`: the request it models, or a `BadInput`
/// error with its message.
pub open spec fn matches_outcome(
    r: Result<ApiRequest, CliError>,
    o: Result<RequestModel, Seq<char>>,
) -> bool {
    match (r, o) {
        (Ok(req), Ok(m)) => req@ == m,
        (Err(e), Err(m)) => is_bad_input(e, m),
        _ => false,
    }
}

/// The check result as a model.
pub open spec fn check_model(check: Result<bool, String>) -> Result<bool, Seq<char>> {
    match check {
        Ok(b) => Ok(b),
        Err(m) => Err(m@),
    }
}

/// The split request for the plan text `plan`, given the outcome `check` of
/// parsing it as JSON.
pub fn split_plan_request(
    base: &str,
    source_id: &str,
    plan: &str,
    check: Result<bool, String>,
    archive_source: bool,
    dry_run: bool,
) -> (r: Result<ApiRequest, CliError>)
    ensures
        matches_outcome(
            r,
            split_outcome(base@, source_id@, plan@, check_model(check), archive_source, dry_run),
        ),
{
    match check {
        Ok(true) => {
            let mut body = RequestBody::new();
            body.insert("splits", JsonValue::Document(String::from_str(plan)));
            body.set_bool("archive_source", archive_source);
            body.set_bool("dry_run", dry_run);
            Ok(ApiRequest::post(item_path(base, source_id, "/split"), body))
        },
        Ok(false) => Err(CliError::bad_input("Splits file must contain a JSON array of entries.")),
        Err(m) => {
            let mut msg = String::from_str("Splits file is not valid JSON: ");
            msg.append(m.as_str());
            Err(CliError::BadInput(msg))
        },
    }
}

/// The split request for the plan text `plan` (the contents of the plan
/// file): parses it as JSON, and asks for the split when it is an array.
pub fn split_request(
    base: &str,
    source_id: &str,
    plan: &str,
    archive_source: bool,
    dry_run: bool,
) -> (r: Result<ApiRequest, CliError>)
    ensures
        matches_outcome(
            r,
            split_outcome(base@, source_id@, plan@, json_array_check(plan@), archive_source, dry_run),
        ),
{
    let check = crate::json::check_json_array(plan);
    split_plan_request(base, source_id, plan, check, archive_source, dry_run)
}

/// Law: a split whose plan is a JSON array posts to `<base>/<source>/split`
/// a body holding the plan, the caller's `archive_source` flag and the
/// caller's `dry_run` flag, each under its own member and each independent
/// of the others: a dry run stays a dry run whether or not the source is
/// to be archived.
pub proof fn law_split_carries_its_flags(
    base: Seq<char>,
    source_id: Seq<char>,
    plan: Seq<char>,
    archive_source: bool,
    dry_run: bool,
)
    ensures
        ({
            let o = split_outcome(base, source_id, plan, Ok(true), archive_source, dry_run);
            &&& o is Ok
            &&& o->Ok_0.path == base + "/"@ + source_id + "/split"@
            &&& o->Ok_0.body is Some
            &&& o->Ok_0.body->Some_0["splits"@] == JsonModel::Document(plan)
            &&& o->Ok_0.body->Some_0["archive_source"@] == JsonModel::Bool(archive_source)
            &&& o->Ok_0.body->Some_0["dry_run"@] == JsonModel::Bool(dry_run)
            &&& o->Ok_0.body->Some_0.dom() =~= set!["splits"@, "archive_source"@, "dry_run"@]
        }),
{
    reveal_strlit("splits");
    reveal_strlit("archive_source");
    reveal_strlit("dry_run");
    assert("splits"@[0] == 's');
    assert("archive_source"@[0] == 'a');
    assert("dry_run"@[0] == 'd');
    assert("splits"@ != "archive_source"@);
    assert("splits"@ != "dry_run"@);
    assert("archive_source"@ != "dry_run"@);
}

} // verus!
