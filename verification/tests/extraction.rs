//! Extraction report interpretation checks, run against the real JSON
//! parser.

use chonker3::extract::{
    assemble_extraction_result, failure_from_error, failure_message,
    interpret_extraction_output, interpret_failure_output, success_message,
};

#[test]
fn a_successful_report_yields_the_counts_and_the_message() {
    let out = "{\"success\": true, \"json_path\": \"/tmp/page.json\", \"items\": 5, \"pages\": 2}";
    let r = interpret_extraction_output(out).expect("valid JSON parses");
    assert!(r.success);
    assert_eq!(r.json_path, "/tmp/page.json");
    assert_eq!(r.items, 5);
    assert_eq!(r.message, "Extracted 5 items from 2 pages");
}

#[test]
fn a_failure_report_carries_its_own_error() {
    let out = "{\"success\": false, \"error\": \"missing dependency\"}";
    let r = interpret_extraction_output(out).expect("valid JSON parses");
    assert!(!r.success);
    assert_eq!(r.json_path, "");
    assert_eq!(r.items, 0);
    assert_eq!(r.message, "missing dependency");
}

#[test]
fn a_failure_report_without_error_text_gets_the_placeholder() {
    let out = "{\"success\": false}";
    let r = interpret_extraction_output(out).expect("valid JSON parses");
    assert!(!r.success);
    assert_eq!(r.message, "Unknown error");
}

#[test]
fn unparseable_output_is_no_report() {
    assert!(interpret_extraction_output("not json at all").is_none());
    assert!(interpret_extraction_output("").is_none());
}

#[test]
fn missing_fields_read_as_empty_and_zero() {
    let out = "{\"success\": true}";
    let r = interpret_extraction_output(out).expect("valid JSON parses");
    assert!(r.success);
    assert_eq!(r.json_path, "");
    assert_eq!(r.items, 0);
    assert_eq!(r.message, "Extracted 0 items from 0 pages");
}

#[test]
fn process_failure_prefers_the_reported_error() {
    let stderr = "trace".to_string();
    let with_error = "{\"error\": \"bad page\"}".to_string();
    let r = interpret_failure_output(&stderr, &with_error);
    assert!(!r.success);
    assert_eq!(r.message, "Extraction failed: bad page");
    let plain = "segfault".to_string();
    let r2 = interpret_failure_output(&stderr, &plain);
    assert_eq!(r2.message, "Extraction failed: trace | segfault");
}

#[test]
fn message_builders_are_exact() {
    assert_eq!(success_message(0, 0), "Extracted 0 items from 0 pages");
    assert_eq!(success_message(12, 3), "Extracted 12 items from 3 pages");
    assert_eq!(failure_from_error(&"x".to_string()), "Extraction failed: x");
    assert_eq!(
        failure_message(&"a".to_string(), &"b".to_string()),
        "Extraction failed: a | b"
    );
}

#[test]
fn assembly_follows_the_report_verdict() {
    let r = assemble_extraction_result(Some(false), Some("why".to_string()), None, Some(9), None);
    assert!(!r.success);
    assert_eq!(r.message, "why");
    assert_eq!(r.items, 0);
    let ok = assemble_extraction_result(
        Some(true),
        None,
        Some("/p.json".to_string()),
        Some(7),
        Some(1),
    );
    assert!(ok.success);
    assert_eq!(ok.json_path, "/p.json");
    assert_eq!(ok.items, 7);
    assert_eq!(ok.message, "Extracted 7 items from 1 pages");
    // No verdict at all still assembles a success shape.
    let none = assemble_extraction_result(None, None, None, None, None);
    assert!(none.success);
    assert_eq!(none.items, 0);
}
