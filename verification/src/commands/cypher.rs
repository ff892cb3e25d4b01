//! `internode cypher ...`: the passphrase-gated Cypher runner.
use vstd::prelude::*;

use crate::digest::{sha256_hex, sha256_of};
use crate::error::{is_bad_input, CliError};
use crate::json::{BodyModel, JsonModel, RequestBody};
use crate::number::hex_lower;
use crate::request::{post_request, sub_path, ApiRequest};
use crate::text::{chars_of, is_blank, trim};

verus! {

/// Path of the Cypher API.
pub const BASE: &'static str = "/internode-tools/cli/cypher";

/// Fewest characters a passphrase may have.
pub const MIN_PASSPHRASE_LEN: usize = 12;

/// The message for a passphrase that is too short.
pub open spec fn short_passphrase_message() -> Seq<char> {
    "Passphrase must be at least 12 characters long."@
}

/// The message for a confirmation that differs from the passphrase.
pub open spec fn mismatch_message() -> Seq<char> {
    "Passphrases did not match."@
}

/// The message for a Cypher file with nothing but white space.
pub open spec fn empty_file_message() -> Seq<char> {
    "Cypher file is empty."@
}

/// Checks a new passphrase before it is confirmed: at least twelve
/// characters, otherwise `BadInput`.
pub fn check_passphrase_length(pass: &str) -> (r: Result<(), CliError>)
    ensures
        match r {
            Ok(()) => pass@.len() >= MIN_PASSPHRASE_LEN,
            Err(e) => pass@.len() < MIN_PASSPHRASE_LEN && is_bad_input(e, short_passphrase_message()),
        },
{
    if chars_of(pass).len() < MIN_PASSPHRASE_LEN {
        Err(CliError::bad_input("Passphrase must be at least 12 characters long."))
    } else {
        Ok(())
    }
}

/// `cypher set-passphrase`: sets the passphrase `pass`, typed twice (the
/// second time as `confirm`). Refused with `BadInput` when it has fewer
/// than twelve characters, or else when the two differ.
pub fn set_passphrase(pass: &str, confirm: &str) -> (r: Result<ApiRequest, CliError>)
    ensures
        match r {
            Ok(req) => pass@.len() >= MIN_PASSPHRASE_LEN && pass@ == confirm@ && req@
                == post_request(
                BASE@ + "/set-passphrase"@,
                Map::empty().insert("passphrase"@, JsonModel::Text(pass@)),
            ),
            Err(e) => if pass@.len() < MIN_PASSPHRASE_LEN {
                is_bad_input(e, short_passphrase_message())
            } else {
                pass@ != confirm@ && is_bad_input(e, mismatch_message())
            },
        },
{
    check_passphrase_length(pass)?;
    if String::from_str(pass) != String::from_str(confirm) {
        return Err(CliError::bad_input("Passphrases did not match."));
    }
    let mut body = RequestBody::new();
    body.set_text("passphrase", pass);
    Ok(ApiRequest::post(sub_path(BASE, "/set-passphrase"), body))
}

/// Checks the contents of a Cypher file before the passphrase is asked
/// for: a file with nothing but white space is refused with `BadInput`.
pub fn check_content(content: &str) -> (r: Result<(), CliError>)
    ensures
        match r {
            Ok(()) => trim(content@).len() > 0,
            Err(e) => trim(content@).len() == 0 && is_bad_input(e, empty_file_message()),
        },
{
    if is_blank(content) {
        Err(CliError::bad_input("Cypher file is empty."))
    } else {
        Ok(())
    }
}

/// The body of `cypher run`.
pub open spec fn run_body(
    content: Seq<char>,
    file_sha256: Seq<char>,
    passphrase: Seq<char>,
    dry_run: bool,
) -> BodyModel {
    Map::empty().insert("content"@, JsonModel::Text(content)).insert(
        "file_sha256"@,
        JsonModel::Text(file_sha256),
    ).insert("passphrase"@, JsonModel::Text(passphrase)).insert(
        "dry_run"@,
        JsonModel::Bool(dry_run),
    )
}

/// The run request for `content` whose SHA-256 fingerprint (lower-case
/// hexadecimal) is `file_sha256`.
pub fn run_with_fingerprint(content: &str, file_sha256: &str, passphrase: &str, dry_run: bool) -> (r:
    ApiRequest)
    ensures
        r@ == post_request(
            BASE@ + "/run"@,
            run_body(content@, file_sha256@, passphrase@, dry_run),
        ),
{
    let mut body = RequestBody::new();
    body.set_text("content", content);
    body.set_text("file_sha256", file_sha256);
    body.set_text("passphrase", passphrase);
    body.set_bool("dry_run", dry_run);
    ApiRequest::post(sub_path(BASE, "/run"), body)
}

/// `cypher run`: runs the Cypher file with contents `content` behind the
/// passphrase, sending the contents with their SHA-256 fingerprint. A file
/// with nothing but white space is refused with `BadInput`.
pub fn run(content: &str, passphrase: &str, dry_run: bool) -> (r: Result<ApiRequest, CliError>)
    ensures
        match r {
            Ok(req) => trim(content@).len() > 0 && req@ == post_request(
                BASE@ + "/run"@,
                run_body(
                    content@,
                    hex_lower(sha256_of(vstd::utf8::encode_utf8(content@))),
                    passphrase@,
                    dry_run,
                ),
            ),
            Err(e) => trim(content@).len() == 0 && is_bad_input(e, empty_file_message()),
        },
{
    check_content(content)?;
    let fingerprint = sha256_hex(content);
    Ok(run_with_fingerprint(content, fingerprint.as_str(), passphrase, dry_run))
}

/// Law: the run request carries each of its inputs under its own member:
/// the file contents, their fingerprint, the passphrase, and the caller's
/// dry-run flag, so a run without `--dry-run` is a real run and one with it
/// never executes; nothing else is sent.
pub proof fn law_run_body_carries_its_inputs(
    content: Seq<char>,
    file_sha256: Seq<char>,
    passphrase: Seq<char>,
    dry_run: bool,
)
    ensures
        ({
            let b = run_body(content, file_sha256, passphrase, dry_run);
            &&& b["content"@] == JsonModel::Text(content)
            &&& b["file_sha256"@] == JsonModel::Text(file_sha256)
            &&& b["passphrase"@] == JsonModel::Text(passphrase)
            &&& b["dry_run"@] == JsonModel::Bool(dry_run)
            &&& b.dom() =~= set!["content"@, "file_sha256"@, "passphrase"@, "dry_run"@]
        }),
{
    reveal_strlit("content");
    reveal_strlit("file_sha256");
    reveal_strlit("passphrase");
    reveal_strlit("dry_run");
    assert("content"@[0] == 'c');
    assert("file_sha256"@[0] == 'f');
    assert("passphrase"@[0] == 'p');
    assert("dry_run"@[0] == 'd');
    assert("content"@ != "dry_run"@);
    assert("content"@ != "passphrase"@);
    assert("content"@ != "file_sha256"@);
    assert("file_sha256"@ != "dry_run"@);
    assert("file_sha256"@ != "passphrase"@);
    assert("passphrase"@ != "dry_run"@);
}

} // verus!
