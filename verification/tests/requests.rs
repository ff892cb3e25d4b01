use internode::commands::{
    cypher, decisions, diagnose, embeddings, entity, graph, intents, repair, replace, subtopics,
    teams, topics,
};
use internode::error::CliError;
use internode::json::{JsonValue, RequestBody};
use internode::request::{ApiRequest, Method};

fn text(s: &str) -> JsonValue {
    JsonValue::Text(s.to_string())
}

fn list(items: &[&str]) -> JsonValue {
    JsonValue::TextList(items.iter().map(|s| s.to_string()).collect())
}

fn body(entries: Vec<(&str, JsonValue)>) -> RequestBody {
    RequestBody { entries: entries.into_iter().map(|(k, v)| (k.to_string(), v)).collect() }
}

fn check(req: &ApiRequest, method: Method, path: &str, expected: Option<RequestBody>) {
    assert_eq!(req.method, method);
    assert_eq!(req.path, path);
    assert_eq!(req.body, expected);
}

fn bad_input(message: &str) -> CliError {
    CliError::BadInput(message.to_string())
}

#[test]
fn decisions_list_without_filters_has_no_query() {
    let r = decisions::list(None, None, None);
    check(&r, Method::Get, "/internode-tools/cli/oi/decisions", None);
}

#[test]
fn decisions_list_encodes_filters_in_order() {
    let r = decisions::list(Some("a b&c/é"), Some(10), Some(-5));
    check(
        &r,
        Method::Get,
        "/internode-tools/cli/oi/decisions?limit=10&offset=-5&search=a+b%26c%2F%C3%A9",
        None,
    );
}

#[test]
fn decisions_list_keeps_unreserved_characters() {
    let r = decisions::list(Some("Az09*-._~"), None, None);
    check(&r, Method::Get, "/internode-tools/cli/oi/decisions?search=Az09*-._%7E", None);
}

#[test]
fn decisions_inspect_path() {
    let r = decisions::inspect("oidecision_1");
    check(&r, Method::Get, "/internode-tools/cli/oi/decisions/oidecision_1/relationships", None);
}

#[test]
fn decisions_create_body() {
    let r = decisions::create("Adopt pricing", None, Some("cheaper"), None, None, Some("explicit"), None, None);
    check(
        &r,
        Method::Post,
        "/internode-tools/cli/oi/decisions",
        Some(body(vec![
            ("decision_title", text("Adopt pricing")),
            ("rationale", text("cheaper")),
            ("decision_type", text("explicit")),
        ])),
    );
}

#[test]
fn decisions_update_only_given_fields() {
    let r = decisions::update("d1", Some("T"), None, None, Some("accepted"), Some("a@b.c"), None, Some("high"), Some("2025-03-14"));
    check(
        &r,
        Method::Patch,
        "/internode-tools/cli/oi/decisions/d1",
        Some(body(vec![
            ("decision_title", text("T")),
            ("decision_status", text("accepted")),
            ("decision_maker_email", text("a@b.c")),
            ("priority", text("high")),
            ("data_date", text("2025-03-14")),
        ])),
    );
}

#[test]
fn decisions_update_without_fields_sends_empty_object() {
    let r = decisions::update("d1", None, None, None, None, None, None, None, None);
    check(&r, Method::Patch, "/internode-tools/cli/oi/decisions/d1", Some(body(vec![])));
}

#[test]
fn decisions_versions() {
    let r = decisions::version_set_date("v1", "2024-01-02");
    check(
        &r,
        Method::Post,
        "/internode-tools/cli/oi/decisions/versions/v1/set-date",
        Some(body(vec![("data_date", text("2024-01-02"))])),
    );
    let r = decisions::version_delete("v2");
    check(&r, Method::Post, "/internode-tools/cli/oi/decisions/versions/v2/delete", Some(body(vec![])));
}

#[test]
fn decisions_archive_and_merge() {
    let r = decisions::archive("d1");
    check(&r, Method::Post, "/internode-tools/cli/oi/decisions/d1/archive", Some(body(vec![])));
    let r = decisions::merge("d1", "d2");
    check(
        &r,
        Method::Post,
        "/internode-tools/cli/oi/decisions/d1/merge",
        Some(body(vec![("target_decision_id", text("d2"))])),
    );
}

#[test]
fn decisions_link_sub_topic_with_type() {
    let r = decisions::link("d1", Some("st1"), None, None, Some("RATIFIES")).unwrap();
    check(
        &r,
        Method::Post,
        "/internode-tools/cli/oi/decisions/d1/edges/add",
        Some(body(vec![
            ("kind", text("sub_topic")),
            ("target_id", text("st1")),
            ("rel_type", text("RATIFIES")),
        ])),
    );
}

#[test]
fn decisions_link_task_and_intent() {
    let r = decisions::link("d1", None, Some("t1"), None, None).unwrap();
    check(
        &r,
        Method::Post,
        "/internode-tools/cli/oi/decisions/d1/edges/add",
        Some(body(vec![("kind", text("task")), ("target_id", text("t1"))])),
    );
    let r = decisions::link("d1", None, None, Some("i1"), None).unwrap();
    assert_eq!(r.body, Some(body(vec![("kind", text("intent")), ("target_id", text("i1"))])));
}

#[test]
fn decisions_link_needs_exactly_one_target() {
    let msg = "Specify exactly one of --sub-topic, --task, --intent.";
    assert_eq!(decisions::link("d1", None, None, None, None), Err(bad_input(msg)));
    assert_eq!(decisions::link("d1", Some("s"), Some("t"), None, None), Err(bad_input(msg)));
    assert_eq!(decisions::unlink("d1", Some("s"), Some("t"), Some("i"), None), Err(bad_input(msg)));
}

#[test]
fn decisions_link_and_unlink_name_the_same_edge() {
    let added = decisions::link("d9", None, Some("t3"), None, Some("MODIFIES")).unwrap();
    let removed = decisions::unlink("d9", None, Some("t3"), None, Some("MODIFIES")).unwrap();
    assert_eq!(added.body, removed.body);
    assert_eq!(added.method, removed.method);
    assert_eq!(added.path, "/internode-tools/cli/oi/decisions/d9/edges/add");
    assert_eq!(removed.path, "/internode-tools/cli/oi/decisions/d9/edges/remove");
}

#[test]
fn decisions_split_with_array_plan() {
    let plan = "[{\"target_decision_id\": \"d2\", \"edges\": []}]";
    let r = decisions::split("d1", plan, true, false).unwrap();
    check(
        &r,
        Method::Post,
        "/internode-tools/cli/oi/decisions/d1/split",
        Some(body(vec![
            ("splits", JsonValue::Document(plan.to_string())),
            ("archive_source", JsonValue::Bool(true)),
            ("dry_run", JsonValue::Bool(false)),
        ])),
    );
}

#[test]
fn decisions_split_rejects_non_array_plan() {
    let r = decisions::split("d1", "{\"a\": 1}", true, true);
    assert_eq!(r, Err(bad_input("Splits file must contain a JSON array of entries.")));
}

#[test]
fn decisions_split_rejects_invalid_json() {
    match decisions::split("d1", "[1, 2", false, false) {
        Err(CliError::BadInput(m)) => {
            assert!(m.starts_with("Splits file is not valid JSON: "));
            assert!(m.len() > "Splits file is not valid JSON: ".len());
        }
        other => panic!("unexpected {:?}", other),
    }
}

#[test]
fn decisions_normalize_edges_body() {
    let r = decisions::normalize_edges(None, &[], &[], true);
    check(
        &r,
        Method::Post,
        "/internode-tools/cli/oi/decisions/normalize-edges",
        Some(body(vec![("dry_run", JsonValue::Bool(true))])),
    );
    let prefer = vec!["RATIFIES".to_string(), "DEFERS".to_string()];
    let r = decisions::normalize_edges(Some("d1"), &prefer, &[], false);
    check(
        &r,
        Method::Post,
        "/internode-tools/cli/oi/decisions/normalize-edges",
        Some(body(vec![
            ("dry_run", JsonValue::Bool(false)),
            ("decision_id", text("d1")),
            ("sub_topic_prefer", list(&["RATIFIES", "DEFERS"])),
        ])),
    );
}

#[test]
fn diagnose_queries() {
    let r = diagnose::decisions(Some("sub topics"), Some(20), None, Some(0));
    check(
        &r,
        Method::Get,
        "/internode-tools/cli/oi/diagnostics/decisions?order_by=sub+topics&limit=20&offset=0",
        None,
    );
    let r = diagnose::topics(None, None, Some(10), None);
    check(&r, Method::Get, "/internode-tools/cli/oi/diagnostics/topics?min_edges=10", None);
    let r = diagnose::subtopics(None, None, None);
    check(&r, Method::Get, "/internode-tools/cli/oi/diagnostics/sub-topics", None);
    let r = diagnose::intents(Some(5), Some(1), Some(2));
    check(&r, Method::Get, "/internode-tools/cli/oi/diagnostics/intents?limit=5&min_edges=1&offset=2", None);
}

#[test]
fn embeddings_status_and_default_sync() {
    check(&embeddings::status(), Method::Get, "/internode-tools/cli/admin/embeddings/status", None);
    let r = embeddings::sync(None, None, None, false, false, false, None);
    check(
        &r,
        Method::Post,
        "/internode-tools/cli/admin/embeddings/sync",
        Some(body(vec![
            ("scope", text("all")),
            ("force", JsonValue::Bool(false)),
            ("dry_run", JsonValue::Bool(false)),
            ("no_wait", JsonValue::Bool(false)),
        ])),
    );
}

#[test]
fn embeddings_sync_with_everything() {
    let ids = internode::text::split_comma_list(" oitopic_a, ,oidecision_b ");
    let r = embeddings::sync(Some("OITopic"), Some(ids), Some("2024-09-01T00:00:00Z"), true, true, true, Some(900));
    check(
        &r,
        Method::Post,
        "/internode-tools/cli/admin/embeddings/sync",
        Some(body(vec![
            ("scope", text("OITopic")),
            ("force", JsonValue::Bool(true)),
            ("dry_run", JsonValue::Bool(true)),
            ("no_wait", JsonValue::Bool(true)),
            ("ids", list(&["oitopic_a", "oidecision_b"])),
            ("since", text("2024-09-01T00:00:00Z")),
            ("timeout", JsonValue::Int(900)),
        ])),
    );
}

#[test]
fn entity_requests() {
    let r = entity::get(vec!["a".to_string(), "b".to_string()], true);
    check(
        &r,
        Method::Post,
        "/internode-tools/cli/oi/entities",
        Some(body(vec![("entity_ids", list(&["a", "b"])), ("include_deleted", JsonValue::Bool(true))])),
    );
    let r = entity::list_deleted(Some("OITopic,OIIntent"), Some("pricing"), Some(5), None);
    check(
        &r,
        Method::Get,
        "/internode-tools/cli/oi/entities/deleted?labels=OITopic%2COIIntent&search=pricing&limit=5",
        None,
    );
    let r = entity::restore("oitopic_abc", "OITopic");
    check(
        &r,
        Method::Post,
        "/internode-tools/cli/oi/entities/oitopic_abc/restore",
        Some(body(vec![("label", text("OITopic"))])),
    );
}

#[test]
fn graph_requests() {
    check(&graph::export(false), Method::Get, "/internode-tools/cli/oi/graph/export", None);
    check(&graph::export(true), Method::Get, "/internode-tools/cli/oi/graph/export?include_deleted=true", None);
    check(&graph::schema(true), Method::Get, "/internode-tools/cli/oi/graph/schema?include_deleted=true", None);
}

#[test]
fn intents_list_inspect_archive_merge() {
    check(&intents::list(Some(50), Some(0)), Method::Get, "/internode-tools/cli/oi/intents?limit=50&offset=0", None);
    check(&intents::inspect("i1"), Method::Get, "/internode-tools/cli/oi/intents/i1/relationships", None);
    check(&intents::archive("i1"), Method::Post, "/internode-tools/cli/oi/intents/i1/archive", Some(body(vec![])));
    check(
        &intents::merge("i1", "i2"),
        Method::Post,
        "/internode-tools/cli/oi/intents/i1/merge",
        Some(body(vec![("target_intent_id", text("i2"))])),
    );
}

#[test]
fn intents_update_splits_signals() {
    let r = intents::update("i1", Some("Grow"), None, Some(""), Some(" ARR, ,churn ,,growth,"), None);
    check(
        &r,
        Method::Patch,
        "/internode-tools/cli/oi/intents/i1",
        Some(body(vec![
            ("intent_title", text("Grow")),
            ("scope", text("")),
            ("signals", list(&["ARR", "churn", "growth"])),
        ])),
    );
}

#[test]
fn intents_update_with_blank_signals_sends_empty_list() {
    let r = intents::update("i1", None, None, None, Some(" , \u{3000},"), None);
    assert_eq!(r.body, Some(body(vec![("signals", list(&[]))])));
}

#[test]
fn intents_signals() {
    let sigs = vec!["ARR".to_string(), "churn".to_string()];
    let r = intents::add_signal("i1", &sigs, None).unwrap();
    check(
        &r,
        Method::Post,
        "/internode-tools/cli/oi/intents/i1/signals/add",
        Some(body(vec![("signals", list(&["ARR", "churn"]))])),
    );
    let r = intents::remove_signal("i1", &sigs, Some("2025-01-02")).unwrap();
    check(
        &r,
        Method::Post,
        "/internode-tools/cli/oi/intents/i1/signals/remove",
        Some(body(vec![("signals", list(&["ARR", "churn"])), ("data_date", text("2025-01-02"))])),
    );
    let msg = "At least one --signal is required.";
    assert_eq!(intents::add_signal("i1", &[], None), Err(bad_input(msg)));
    assert_eq!(intents::remove_signal("i1", &[], Some("2025-01-02")), Err(bad_input(msg)));
}

#[test]
fn intents_set_scope_keeps_empty_scope() {
    let r = intents::set_scope("i1", "", None);
    check(&r, Method::Post, "/internode-tools/cli/oi/intents/i1/set-scope", Some(body(vec![("scope", text(""))])));
}

#[test]
fn intents_split_and_consolidate() {
    let r = intents::split("i1", "[]", false, true).unwrap();
    assert_eq!(r.path, "/internode-tools/cli/oi/intents/i1/split");
    let sources = vec!["i2".to_string(), "i3".to_string()];
    let r = intents::consolidate("i1", &sources, "keep_target", "first_non_empty", "union", false, None).unwrap();
    check(
        &r,
        Method::Post,
        "/internode-tools/cli/oi/intents/consolidate",
        Some(body(vec![
            ("target_intent_id", text("i1")),
            ("source_intent_ids", list(&["i2", "i3"])),
            ("statement_strategy", text("keep_target")),
            ("scope_strategy", text("first_non_empty")),
            ("signals_strategy", text("union")),
            ("dry_run", JsonValue::Bool(false)),
        ])),
    );
    assert_eq!(
        intents::consolidate("i1", &[], "keep_target", "keep_target", "union", false, None),
        Err(bad_input("At least one --source intent id is required."))
    );
}

#[test]
fn repair_version_chains_body() {
    let r = repair::version_chains(None, &[], false);
    check(
        &r,
        Method::Post,
        "/internode-tools/cli/oi/version-chains/repair",
        Some(body(vec![("dry_run", JsonValue::Bool(false))])),
    );
    let ids = vec!["oidecision_abc".to_string()];
    let r = repair::version_chains(Some("OIDecision,OIIntent"), &ids, true);
    assert_eq!(
        r.body,
        Some(body(vec![
            ("dry_run", JsonValue::Bool(true)),
            ("labels", text("OIDecision,OIIntent")),
            ("ids", list(&["oidecision_abc"])),
        ]))
    );
}

#[test]
fn replace_text_rules() {
    assert_eq!(
        replace::replace_text("abc", "abcd", true),
        Err(bad_input("search must be at least 4 characters long."))
    );
    assert_eq!(
        replace::replace_text("Qualeon", "Qualeon", false),
        Err(bad_input("search and replacement are identical; nothing to do."))
    );
    assert_eq!(
        replace::replace_text("abc", "abc", false),
        Err(bad_input("search must be at least 4 characters long."))
    );
    let r = replace::replace_text("Qualeon", "Qualcomm", false).unwrap();
    check(
        &r,
        Method::Post,
        "/internode-tools/cli/oi/replace-text",
        Some(body(vec![
            ("search", text("Qualeon")),
            ("replace", text("Qualcomm")),
            ("apply", JsonValue::Bool(false)),
        ])),
    );
}

#[test]
fn replace_text_counts_characters_not_bytes() {
    assert!(replace::replace_text("éé", "x", false).is_err());
    assert!(replace::replace_text("éééé", "x", true).is_ok());
}

#[test]
fn subtopics_requests() {
    let r = subtopics::list(Some("Idea"), Some("t 1"), Some(10), None);
    check(&r, Method::Get, "/internode-tools/cli/oi/sub-topics?limit=10&type=Idea&topic_id=t+1", None);
    check(&subtopics::inspect("s1"), Method::Get, "/internode-tools/cli/oi/sub-topics/s1/relationships", None);
    check(
        &subtopics::move_to("s1", "t2"),
        Method::Post,
        "/internode-tools/cli/oi/sub-topics/s1/move",
        Some(body(vec![("target_topic_id", text("t2"))])),
    );
    check(&subtopics::archive("s1"), Method::Post, "/internode-tools/cli/oi/sub-topics/s1/archive", Some(body(vec![])));
    let r = subtopics::update("s1", Some("We ship"), Some("Outcome"), None, None);
    check(
        &r,
        Method::Patch,
        "/internode-tools/cli/oi/sub-topics/s1",
        Some(body(vec![("topic_conclusion", text("We ship")), ("topic_conclusion_type", text("Outcome"))])),
    );
}

#[test]
fn teams_requests() {
    check(&teams::list(), Method::Get, "/internode-tools/cli/oi/teams", None);
    let r = teams::create("Platform", Some("PLT"), None, Some("2024-01-01"));
    check(
        &r,
        Method::Post,
        "/internode-tools/cli/oi/teams",
        Some(body(vec![("name", text("Platform")), ("key", text("PLT")), ("created_date", text("2024-01-01"))])),
    );
    let r = teams::set_created_date("tm1", "2023-05-06");
    check(
        &r,
        Method::Post,
        "/internode-tools/cli/oi/teams/tm1/set-created-date",
        Some(body(vec![("created_date", text("2023-05-06"))])),
    );
}

#[test]
fn topics_requests() {
    let r = topics::list(Some(20), Some(0), Some("deployment"), Some(3));
    check(
        &r,
        Method::Get,
        "/internode-tools/cli/oi/topics?limit=20&offset=0&search=deployment&category_index=3",
        None,
    );
    let r = topics::list(Some(i64::MIN), None, None, Some(i64::MAX));
    assert_eq!(
        r.path,
        "/internode-tools/cli/oi/topics?limit=-9223372036854775808&category_index=9223372036854775807"
    );
    check(&topics::inspect("t1"), Method::Get, "/internode-tools/cli/oi/topics/t1/relationships", None);
    let r = topics::update("t1", Some("Pricing"), None, Some(5), Some("p@x.io"), None);
    check(
        &r,
        Method::Patch,
        "/internode-tools/cli/oi/topics/t1",
        Some(body(vec![
            ("topic_title", text("Pricing")),
            ("category_index", JsonValue::Int(5)),
            ("primary_contributor_email", text("p@x.io")),
        ])),
    );
    check(&topics::archive("t1"), Method::Post, "/internode-tools/cli/oi/topics/t1/archive", Some(body(vec![])));
    check(
        &topics::merge("t1", "t2"),
        Method::Post,
        "/internode-tools/cli/oi/topics/t1/merge",
        Some(body(vec![("target_topic_id", text("t2"))])),
    );
}

#[test]
fn cypher_passphrase_rules() {
    let short = "Passphrase must be at least 12 characters long.";
    assert_eq!(cypher::check_passphrase_length("elevenchars"), Err(bad_input(short)));
    assert_eq!(cypher::check_passphrase_length("twelve chars"), Ok(()));
    assert_eq!(cypher::set_passphrase("short", "short"), Err(bad_input(short)));
    assert_eq!(
        cypher::set_passphrase("correct horse battery", "correct horse battery!"),
        Err(bad_input("Passphrases did not match."))
    );
    let r = cypher::set_passphrase("correct horse battery", "correct horse battery").unwrap();
    check(
        &r,
        Method::Post,
        "/internode-tools/cli/cypher/set-passphrase",
        Some(body(vec![("passphrase", text("correct horse battery"))])),
    );
}

#[test]
fn cypher_run_sends_sha256_of_the_file() {
    let r = cypher::run("abc", "secret passphrase", true).unwrap();
    check(
        &r,
        Method::Post,
        "/internode-tools/cli/cypher/run",
        Some(body(vec![
            ("content", text("abc")),
            ("file_sha256", text("ba7816bf8f01cfea414140de5dae2223b00361a396177a9cb410ff61f20015ad")),
            ("passphrase", text("secret passphrase")),
            ("dry_run", JsonValue::Bool(true)),
        ])),
    );
}

#[test]
fn cypher_run_rejects_blank_file() {
    let msg = "Cypher file is empty.";
    assert_eq!(cypher::check_content(" \n\t\u{2003}\r\n"), Err(bad_input(msg)));
    assert_eq!(cypher::run("", "p", false), Err(bad_input(msg)));
    assert_eq!(cypher::check_content("\n MATCH (n) RETURN n \n"), Ok(()));
}

#[test]
fn intents_update_with_data_date() {
    let r = intents::update("oiintent_1", None, None, None, None, Some("2025-03-14"));
    check(
        &r,
        Method::Patch,
        "/internode-tools/cli/oi/intents/oiintent_1",
        Some(body(vec![("data_date", text("2025-03-14"))])),
    );
}

#[test]
fn data_date_on_versioned_writes() {
    let r = topics::update("t1", None, None, None, None, Some("2025-03-14T10:00:00Z"));
    assert_eq!(r.body, Some(body(vec![("data_date", text("2025-03-14T10:00:00Z"))])));
    let r = subtopics::update("s1", Some("c"), None, None, Some("2024-12-31"));
    assert_eq!(
        r.body,
        Some(body(vec![("topic_conclusion", text("c")), ("data_date", text("2024-12-31"))]))
    );
    let r = intents::set_scope("i1", "retention", Some("2024-06-01"));
    check(
        &r,
        Method::Post,
        "/internode-tools/cli/oi/intents/i1/set-scope",
        Some(body(vec![("scope", text("retention")), ("data_date", text("2024-06-01"))])),
    );
    let sigs = vec!["ARR".to_string()];
    let r = intents::add_signal("i1", &sigs, Some("2024-06-02")).unwrap();
    assert_eq!(
        r.body,
        Some(body(vec![("signals", list(&["ARR"])), ("data_date", text("2024-06-02"))]))
    );
    let sources = vec!["i2".to_string()];
    let r = intents::consolidate("i1", &sources, "keep_target", "keep_target", "union", true, Some("2024-06-03"))
        .unwrap();
    assert_eq!(
        r.body,
        Some(body(vec![
            ("target_intent_id", text("i1")),
            ("source_intent_ids", list(&["i2"])),
            ("statement_strategy", text("keep_target")),
            ("scope_strategy", text("keep_target")),
            ("signals_strategy", text("union")),
            ("dry_run", JsonValue::Bool(true)),
            ("data_date", text("2024-06-03")),
        ]))
    );
}
