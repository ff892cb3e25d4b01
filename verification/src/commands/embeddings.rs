//! `internode embeddings ...`: re-align the search index.
use vstd::prelude::*;

use crate::json::{opt_chars, with_opt_int, with_opt_text, BodyModel, JsonModel, RequestBody};
use crate::request::{get_request, post_request, ApiRequest};
use crate::text::string_views;

verus! {

/// Path of the drift report.
pub const STATUS_PATH: &'static str = "/internode-tools/cli/admin/embeddings/status";

/// Path of the re-alignment.
pub const SYNC_PATH: &'static str = "/internode-tools/cli/admin/embeddings/sync";

/// `embeddings status`: a GET of the drift report.
pub fn status() -> (r: ApiRequest)
    ensures
        r@ == get_request(STATUS_PATH@),
{
    ApiRequest::get(String::from_str(STATUS_PATH))
}

/// The scope sent: the one given, or `all`.
pub open spec fn scope_or_all(scope: Option<&str>) -> Seq<char> {
    match scope {
        Some(s) => s@,
        None => "all"@,
    }
}

/// The body of `embeddings sync`.
pub open spec fn sync_body(
    scope: Option<&str>,
    ids: Option<Seq<String>>,
    since: Option<&str>,
    force: bool,
    dry_run: bool,
    no_wait: bool,
    timeout: Option<i64>,
) -> BodyModel {
    let m = Map::empty().insert("scope"@, JsonModel::Text(scope_or_all(scope))).insert(
        "force"@,
        JsonModel::Bool(force),
    ).insert("dry_run"@, JsonModel::Bool(dry_run)).insert("no_wait"@, JsonModel::Bool(no_wait));
    let m = match ids {
        Some(list) => m.insert("ids"@, JsonModel::TextList(string_views(list))),
        None => m,
    };
    with_opt_int(with_opt_text(m, "since"@, opt_chars(since)), "timeout"@, timeout)
}

/// The view of an optional list of strings.
pub open spec fn opt_list(ids: Option<Vec<String>>) -> Option<Seq<String>> {
    match ids {
        Some(v) => Some(v@),
        None => None,
    }
}

/// `embeddings sync`: a POST re-aligning the search index for the scope
/// (`all` by default), the given ids and start time, with the given flags.
pub fn sync(
    scope: Option<&str>,
    ids: Option<Vec<String>>,
    since: Option<&str>,
    force: bool,
    dry_run: bool,
    no_wait: bool,
    timeout: Option<i64>,
) -> (r: ApiRequest)
    ensures
        r@ == post_request(
            SYNC_PATH@,
            sync_body(scope, opt_list(ids), since, force, dry_run, no_wait, timeout),
        ),
{
    let mut body = RequestBody::new();
    match scope {
        Some(s) => body.set_text("scope", s),
        None => body.set_text("scope", "all"),
    }
    body.set_bool("force", force);
    body.set_bool("dry_run", dry_run);
    body.set_bool("no_wait", no_wait);
    if let Some(list) = ids {
        body.set_text_list("ids", list.as_slice());
    }
    body.set_opt_text("since", since);
    body.set_opt_int("timeout", timeout);
    ApiRequest::post(String::from_str(SYNC_PATH), body)
}

/// Law: the sync body carries each input under its own member: the scope
/// (`all` when none is given), the caller's `force`, `dry_run` and
/// `no_wait` flags, and the ids, start time and timeout exactly when they
/// are given.
pub proof fn law_sync_body_carries_its_inputs(
    scope: Option<&str>,
    ids: Option<Seq<String>>,
    since: Option<&str>,
    force: bool,
    dry_run: bool,
    no_wait: bool,
    timeout: Option<i64>,
)
    ensures
        ({
            let b = sync_body(scope, ids, since, force, dry_run, no_wait, timeout);
            &&& b["scope"@] == JsonModel::Text(
                match scope {
                    Some(s) => s@,
                    None => "all"@,
                },
            )
            &&& b["force"@] == JsonModel::Bool(force)
            &&& b["dry_run"@] == JsonModel::Bool(dry_run)
            &&& b["no_wait"@] == JsonModel::Bool(no_wait)
            &&& b.dom().contains("ids"@) == ids is Some
            &&& ids matches Some(list) ==> b["ids"@] == JsonModel::TextList(string_views(list))
            &&& b.dom().contains("since"@) == since is Some
            &&& since matches Some(t) ==> b["since"@] == JsonModel::Text(t@)
            &&& b.dom().contains("timeout"@) == timeout is Some
            &&& timeout matches Some(n) ==> b["timeout"@] == JsonModel::Int(n as int)
            &&& b.dom().contains("scope"@) && b.dom().contains("force"@) && b.dom().contains(
                "dry_run"@,
            ) && b.dom().contains("no_wait"@)
        }),
{
    reveal_strlit("scope");
    reveal_strlit("force");
    reveal_strlit("dry_run");
    reveal_strlit("no_wait");
    reveal_strlit("ids");
    reveal_strlit("since");
    reveal_strlit("timeout");
    assert("scope"@[0] == 's' && "scope"@[1] == 'c');
    assert("since"@[0] == 's' && "since"@[1] == 'i');
    assert("force"@[0] == 'f');
    assert("dry_run"@[0] == 'd');
    assert("no_wait"@[0] == 'n');
    assert("ids"@[0] == 'i');
    assert("timeout"@[0] == 't');
    let keys = seq!["scope"@, "force"@, "dry_run"@, "no_wait"@, "ids"@, "since"@, "timeout"@];
    assert forall|x: int, y: int| 0 <= x < 7 && 0 <= y < 7 && x != y implies keys[x] != keys[y] by {
        if keys[x][0] != keys[y][0] {
        } else {
            assert(keys[x][1] != keys[y][1]);
        }
    }
    assert(keys[0] != keys[1] && keys[0] != keys[2] && keys[0] != keys[3] && keys[0] != keys[4]
        && keys[0] != keys[5] && keys[0] != keys[6]);
    assert(keys[1] != keys[2] && keys[1] != keys[3] && keys[1] != keys[4] && keys[1] != keys[5]
        && keys[1] != keys[6]);
    assert(keys[2] != keys[3] && keys[2] != keys[4] && keys[2] != keys[5] && keys[2] != keys[6]);
    assert(keys[3] != keys[4] && keys[3] != keys[5] && keys[3] != keys[6]);
    assert(keys[4] != keys[5] && keys[4] != keys[6]);
    assert(keys[5] != keys[6]);
}

} // verus!
