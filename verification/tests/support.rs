use internode::error::CliError;
use internode::json::{JsonValue, RequestBody};
use internode::number::{decimal, to_hex_lower};
use internode::request::QueryParams;
use internode::response::followup_hint;
use internode::text::{is_blank, split_comma_list, trim_text};

#[test]
fn error_codes_and_exit_codes() {
    let cases = [
        (CliError::BadInput("m".to_string()), "BAD_INPUT", 1u8),
        (CliError::Auth("m".to_string()), "AUTH_ERROR", 2),
        (CliError::Server("m".to_string()), "SERVER_ERROR", 3),
        (CliError::Network("m".to_string()), "NETWORK_ERROR", 4),
    ];
    for (e, code, exit) in cases.iter() {
        assert_eq!(e.code(), *code);
        assert_eq!(e.exit_code(), *exit);
        assert!(e.exit_code() > 0);
        assert_eq!(e.message(), "m");
    }
}

#[test]
fn exit_codes_tell_kinds_apart() {
    let a = CliError::Auth("x".to_string());
    let b = CliError::Server("x".to_string());
    assert_ne!(a.exit_code(), b.exit_code());
    assert_ne!(a.code(), b.code());
    let c = CliError::Auth("other".to_string());
    assert_eq!(a.exit_code(), c.exit_code());
}

#[test]
fn bad_input_constructor() {
    assert_eq!(CliError::bad_input("nope"), CliError::BadInput("nope".to_string()));
}

#[test]
fn decimal_text_of_integers() {
    assert_eq!(decimal(0), "0");
    assert_eq!(decimal(7), "7");
    assert_eq!(decimal(10), "10");
    assert_eq!(decimal(-42), "-42");
    assert_eq!(decimal(i64::MAX), "9223372036854775807");
    assert_eq!(decimal(i64::MIN), "-9223372036854775808");
}

#[test]
fn hex_of_bytes() {
    assert_eq!(to_hex_lower(&[]), "");
    assert_eq!(to_hex_lower(&[0x00, 0x0f, 0xa5, 0xff]), "000fa5ff");
}

#[test]
fn trimming_unicode_white_space() {
    assert_eq!(trim_text("  a b \t"), "a b");
    assert_eq!(trim_text("\u{3000}\u{00A0}x\u{2028}"), "x");
    assert_eq!(trim_text("\u{200B}x"), "\u{200B}x");
    assert_eq!(trim_text("   "), "");
    assert!(is_blank(" \u{85}\n"));
    assert!(!is_blank(" . "));
}

#[test]
fn comma_lists() {
    assert_eq!(split_comma_list(""), Vec::<String>::new());
    assert_eq!(split_comma_list(",,,"), Vec::<String>::new());
    assert_eq!(split_comma_list("a"), vec!["a".to_string()]);
    assert_eq!(
        split_comma_list(" ARR , churn,,growth rate ,"),
        vec!["ARR".to_string(), "churn".to_string(), "growth rate".to_string()]
    );
}

#[test]
fn comma_list_entries_are_clean() {
    for item in split_comma_list("  x ,y,, z z ,\t,w\u{3000}") {
        assert!(!item.is_empty());
        assert_eq!(item.trim(), item);
        assert!(!item.contains(','));
    }
}

#[test]
fn query_strings() {
    let mut q = QueryParams::new();
    assert_eq!(q.query_string(), "");
    q.push_int("limit", None);
    q.push_text("search", None);
    assert_eq!(q.query_string(), "");
    q.push_int("limit", Some(3));
    assert_eq!(q.query_string(), "?limit=3");
    q.push_text("search", Some("a=b c"));
    assert_eq!(q.query_string(), "?limit=3&search=a%3Db+c");
}

#[test]
fn body_member_assignment_replaces_value() {
    let mut b = RequestBody::new();
    b.set_text("k", "one");
    b.set_bool("k", true);
    b.set_opt_text("m", None);
    b.set_opt_int("n", Some(-1));
    b.set_nonempty_list("l", &[]);
    assert_eq!(
        b.entries,
        vec![
            ("k".to_string(), JsonValue::Text("one".to_string())),
            ("k".to_string(), JsonValue::Bool(true)),
            ("n".to_string(), JsonValue::Int(-1)),
        ]
    );
}

#[test]
fn followup_hints() {
    assert_eq!(followup_hint(None), None);
    assert_eq!(followup_hint(Some("")), None);
    assert_eq!(
        followup_hint(Some("internode embeddings sync")),
        Some("hint: internode embeddings sync".to_string())
    );
}
