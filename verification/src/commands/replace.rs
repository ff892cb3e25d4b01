//! `internode replace-text`: correct a misspelling across the whole graph.
use vstd::prelude::*;

use crate::error::{is_bad_input, CliError};
use crate::json::{BodyModel, JsonModel, RequestBody};
use crate::request::{post_request, sub_path, ApiRequest};
use crate::text::chars_of;

verus! {

/// Path of the graph-wide text API.
pub const BASE: &'static str = "/internode-tools/cli/oi";

/// Fewest characters a search text may have.
pub const MIN_SEARCH_LEN: usize = 4;

/// The message for a search text that is too short.
pub open spec fn short_search_message() -> Seq<char> {
    "search must be at least 4 characters long."@
}

/// The message for a replacement equal to the search text.
pub open spec fn same_text_message() -> Seq<char> {
    "search and replacement are identical; nothing to do."@
}

/// The body of `replace-text`.
pub open spec fn replace_body(search: Seq<char>, replacement: Seq<char>, apply: bool) -> BodyModel {
    Map::empty().insert("search"@, JsonModel::Text(search)).insert(
        "replace"@,
        JsonModel::Text(replacement),
    ).insert("apply"@, JsonModel::Bool(apply))
}

/// `replace-text`: replaces `search` with `replacement` in every text
/// property the caller owns (a preview unless `apply`). A search text of
/// fewer than four characters, or a replacement equal to it, is refused
/// with `BadInput` (the length check first).
pub fn replace_text(search: &str, replacement: &str, apply: bool) -> (r: Result<ApiRequest, CliError>)
    ensures
        match r {
            Ok(req) => search@.len() >= MIN_SEARCH_LEN && search@ != replacement@ && req@
                == post_request(BASE@ + "/replace-text"@, replace_body(search@, replacement@, apply)),
            Err(e) => if search@.len() < MIN_SEARCH_LEN {
                is_bad_input(e, short_search_message())
            } else {
                search@ == replacement@ && is_bad_input(e, same_text_message())
            },
        },
{
    let count: usize = chars_of(search).len();
    if count < MIN_SEARCH_LEN {
        return Err(CliError::bad_input("search must be at least 4 characters long."));
    }
    if String::from_str(search) == String::from_str(replacement) {
        return Err(CliError::bad_input("search and replacement are identical; nothing to do."));
    }
    let mut body = RequestBody::new();
    body.set_text("search", search);
    body.set_text("replace", replacement);
    body.set_bool("apply", apply);
    Ok(ApiRequest::post(sub_path(BASE, "/replace-text"), body))
}

/// Law: the replace body carries the search text, the replacement and the
/// caller's `apply` flag, each under its own member, and nothing else: a
/// preview stays a preview.
pub proof fn law_replace_body_carries_its_inputs(search: Seq<char>, replacement: Seq<char>, apply: bool)
    ensures
        ({
            let b = replace_body(search, replacement, apply);
            &&& b["search"@] == JsonModel::Text(search)
            &&& b["replace"@] == JsonModel::Text(replacement)
            &&& b["apply"@] == JsonModel::Bool(apply)
            &&& b.dom() =~= set!["search"@, "replace"@, "apply"@]
        }),
{
    reveal_strlit("search");
    reveal_strlit("replace");
    reveal_strlit("apply");
    assert("search"@[0] != "replace"@[0]);
    assert("search"@[0] != "apply"@[0]);
    assert("replace"@[0] != "apply"@[0]);
}

} // verus!
