use frama_c_mcp_cli::payload::{incomplete_entries, is_incomplete};
use serde_json::Value;

fn parse(text: &str) -> Value {
    serde_json::from_str(text).unwrap()
}

#[test]
fn an_incomplete_list_is_counted() {
    let payload = parse(r#"{"verdict": "incomplete", "incomplete": [{"code": "GOAL_NOT_VALID"}, {"code": "ASSUMED_VALID"}]}"#);
    assert_eq!(incomplete_entries(&payload), Some(2));
}

#[test]
fn an_empty_incomplete_list_counts_zero() {
    assert_eq!(incomplete_entries(&parse(r#"{"verdict": "proved", "incomplete": []}"#)), Some(0));
}

#[test]
fn a_missing_or_malformed_list_counts_nothing() {
    assert_eq!(incomplete_entries(&parse(r#"{"verdict": "proved"}"#)), None);
    assert_eq!(incomplete_entries(&parse(r#"{"incomplete": "GOAL_NOT_VALID"}"#)), None);
    assert_eq!(incomplete_entries(&parse(r#"{"incomplete": null}"#)), None);
    assert_eq!(incomplete_entries(&parse(r#"[["incomplete"]]"#)), None);
    assert_eq!(incomplete_entries(&Value::Null), None);
}

#[test]
fn only_a_non_empty_list_leaves_work_open() {
    assert!(is_incomplete(Some(1)));
    assert!(is_incomplete(Some(7)));
    assert!(!is_incomplete(Some(0)));
    assert!(!is_incomplete(None));
}
