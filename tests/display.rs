use logfmt::record::{
    metadata_or_empty, metadata_to_string, render_line, render_lines, time_or_original, to_local_time,
    LogRecord,
};
use logfmt::text::{center_level, compose, decimal_text, get_color, str_eq, Tone};

fn plain() {
    colored::control::set_override(false);
}

fn record(level: &str, file: Option<&str>, line: Option<i32>) -> LogRecord {
    LogRecord {
        level: level.to_string(),
        message: "boom".to_string(),
        timestamp: "yesterday".to_string(),
        file: file.map(|f| f.to_string()),
        line,
        metadata: None,
    }
}

#[test]
fn centers_short_levels() {
    assert_eq!(center_level("info"), "info ");
    assert_eq!(center_level("warn"), "warn ");
    assert_eq!(center_level("ab"), " ab  ");
    assert_eq!(center_level(""), "     ");
    assert_eq!(center_level("error"), "error");
    assert_eq!(center_level("critical"), "critical");
}

#[test]
fn decimal_text_of_line_numbers() {
    assert_eq!(decimal_text(0), "0");
    assert_eq!(decimal_text(42), "42");
    assert_eq!(decimal_text(-7), "-7");
    assert_eq!(decimal_text(i32::MAX), "2147483647");
    assert_eq!(decimal_text(i32::MIN), "-2147483648");
}

#[test]
fn severity_colors() {
    assert_eq!(get_color("info"), Some(Tone::Green));
    assert_eq!(get_color("warn"), Some(Tone::Yellow));
    assert_eq!(get_color("error"), Some(Tone::Red));
    assert_eq!(get_color("debug"), Some(Tone::Cyan));
    assert_eq!(get_color("INFO"), None);
    assert_eq!(get_color("trace"), None);
    assert_eq!(get_color(""), None);
    assert!(str_eq("abc", "abc"));
    assert!(!str_eq("abc", "abd"));
}

#[test]
fn layout_with_source() {
    let r = compose("T", "info", Some("main.rs"), Some("12"), "hello", "{\"a\":1}");
    assert_eq!(r, "T|info |main.rs:12: hello {\"a\":1}");
}

#[test]
fn layout_without_source() {
    assert_eq!(compose("T", "warn", None, None, "m", ""), "T|warn : m ");
    assert_eq!(compose("T", "warn", Some("f.rs"), None, "m", ""), "T|warn : m ");
    assert_eq!(compose("T", "warn", None, Some("3"), "m", ""), "T|warn : m ");
}

#[test]
fn bad_timestamp_kept() {
    assert_eq!(to_local_time("yesterday"), "yesterday");
    assert_eq!(to_local_time(""), "");
    assert_eq!(to_local_time("2024-13-01T00:00:00Z"), "2024-13-01T00:00:00Z");
}

#[test]
fn good_timestamp_rewritten() {
    let t = to_local_time("2024-01-01T00:00:00Z");
    assert_ne!(t, "2024-01-01T00:00:00Z");
    let c: Vec<char> = t.chars().collect();
    assert!(c.len() == 24 || c.len() == 29);
    assert_eq!(c[4], '-');
    assert_eq!(c[10], 'T');
    assert_eq!(c[19], '.');
    assert!(t.ends_with('Z') || c[23] == '+' || c[23] == '-');
}

#[test]
fn metadata_text() {
    assert_eq!(metadata_to_string(&None), "");
    let v: serde_json::Value = serde_json::from_str("{\"b\":1,\"a\":[true,null]}").unwrap();
    assert_eq!(metadata_to_string(&Some(v)), "{\"b\":1,\"a\":[true,null]}");
    let nested: serde_json::Value = serde_json::from_str("{\"s\":\"x\\ny\"}").unwrap();
    let text = metadata_to_string(&Some(nested));
    assert_eq!(text, "{\"s\":\"x\\ny\"}");
    assert!(!text.contains('\n'));
}

#[test]
fn record_with_source() {
    plain();
    let r = record("info", Some("main.rs"), Some(7));
    assert_eq!(r.format(), "yesterday|info |main.rs:7: boom ");
}

#[test]
fn record_missing_half_of_source() {
    plain();
    assert_eq!(record("info", Some("main.rs"), None).format(), "yesterday|info : boom ");
    assert_eq!(record("info", None, Some(7)).format(), "yesterday|info : boom ");
}

#[test]
fn error_record_example() {
    plain();
    let mut r = record("error", None, None);
    r.timestamp = "2024-01-01T00:00:00Z".to_string();
    let out = r.render();
    assert!(out.ends_with("|error: boom "));
    assert!(!out.starts_with("2024-01-01T00:00:00Z|"));
}

#[test]
fn passthrough_of_undecoded_line() {
    assert_eq!(render_line("not json at all", &None), "not json at all");
    assert_eq!(render_line("", &None), "");
}

#[test]
fn one_output_per_input_in_order() {
    plain();
    let lines = vec!["a".to_string(), "x".to_string(), "b".to_string()];
    let decoded = vec![None, Some(record("debug", None, None)), None];
    let out = render_lines(&lines, &decoded);
    assert_eq!(out.len(), 3);
    assert_eq!(out[0], "a");
    assert_eq!(out[1], "yesterday|debug: boom ");
    assert_eq!(out[2], "b");
    assert!(render_lines(&Vec::new(), &Vec::new()).is_empty());
}

#[test]
fn time_fallback_choice() {
    assert_eq!(time_or_original("ts", None), "ts");
    assert_eq!(time_or_original("ts", Some("local".to_string())), "local");
}

#[test]
fn metadata_fallback_choice() {
    assert_eq!(metadata_or_empty(None), "");
    assert_eq!(metadata_or_empty(Some("[1]".to_string())), "[1]");
}
