//! `internode repair ...`: repair structural corruption.
use vstd::prelude::*;

use crate::json::{opt_chars, with_nonempty_list, with_opt_text, BodyModel, JsonModel, RequestBody};
use crate::request::{post_request, sub_path, ApiRequest};
use crate::text::string_views;

verus! {

/// Path of the version-chain API.
pub const BASE: &'static str = "/internode-tools/cli/oi/version-chains";

/// The body of `repair version-chains`: the dry-run flag, the label filter
/// when given, and the root ids when there are any.
pub open spec fn repair_body(labels: Option<&str>, ids: Seq<String>, dry_run: bool) -> BodyModel {
    with_nonempty_list(
        with_opt_text(
            Map::empty().insert("dry_run"@, JsonModel::Bool(dry_run)),
            "labels"@,
            opt_chars(labels),
        ),
        "ids"@,
        string_views(ids),
    )
}

/// `repair version-chains`: re-linearizes forked version chains, of the
/// given roots, or (without ids) of every forked root of the given labels.
pub fn version_chains(labels: Option<&str>, ids: &[String], dry_run: bool) -> (r: ApiRequest)
    ensures
        r@ == post_request(BASE@ + "/repair"@, repair_body(labels, ids@, dry_run)),
{
    let mut body = RequestBody::new();
    body.set_bool("dry_run", dry_run);
    body.set_opt_text("labels", labels);
    body.set_nonempty_list("ids", ids);
    ApiRequest::post(sub_path(BASE, "/repair"), body)
}

/// Law: the repair body carries the caller's dry-run flag, the label filter
/// exactly when given, and the root ids exactly when there are any.
pub proof fn law_repair_body_carries_its_inputs(labels: Option<&str>, ids: Seq<String>, dry_run: bool)
    ensures
        ({
            let b = repair_body(labels, ids, dry_run);
            &&& b["dry_run"@] == JsonModel::Bool(dry_run)
            &&& b.dom().contains("labels"@) == labels is Some
            &&& labels matches Some(l) ==> b["labels"@] == JsonModel::Text(l@)
            &&& b.dom().contains("ids"@) == (ids.len() > 0)
            &&& ids.len() > 0 ==> b["ids"@] == JsonModel::TextList(string_views(ids))
            &&& b.dom().contains("dry_run"@)
        }),
{
    reveal_strlit("dry_run");
    reveal_strlit("labels");
    reveal_strlit("ids");
    assert("dry_run"@[0] != "labels"@[0]);
    assert("dry_run"@[0] != "ids"@[0]);
    assert("labels"@[0] != "ids"@[0]);
}

} // verus!
