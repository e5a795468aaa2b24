use trace_profiler::decimal::decimal_string;
use trace_profiler::trace_path::{
    candidate_dir, join_path, needs_trace_dir, trace_file_name, trace_path,
};

#[test]
fn decimal_of_zero_and_small_values() {
    assert_eq!(decimal_string(0), "0");
    assert_eq!(decimal_string(7), "7");
    assert_eq!(decimal_string(42), "42");
    assert_eq!(decimal_string(1000), "1000");
}

#[test]
fn decimal_of_largest_value() {
    assert_eq!(decimal_string(u128::MAX), u128::MAX.to_string());
}

#[test]
fn join_adds_one_separator() {
    assert_eq!(join_path("/opt/bin", "traces"), "/opt/bin/traces");
    assert_eq!(join_path("/opt/bin/", "traces"), "/opt/bin/traces");
    assert_eq!(join_path("", "traces"), "traces");
}

#[test]
fn candidate_dir_beside_executable() {
    assert_eq!(candidate_dir(Some("/opt/bin"), "/src/pkg"), "/opt/bin/traces");
}

#[test]
fn candidate_dir_without_executable_dir() {
    assert_eq!(candidate_dir(None, "/src/pkg"), "/src/pkg/traces");
}

#[test]
fn file_name_from_executable_and_time() {
    assert_eq!(trace_file_name(Some("app"), 1700000000123), "app_trace_1700000000123.json");
}

#[test]
fn file_name_without_executable_name() {
    assert_eq!(trace_file_name(None, 5), "trace_trace_5.json");
    assert_eq!(trace_file_name(Some(""), 5), "trace_trace_5.json");
}

#[test]
fn file_name_when_clock_reads_zero() {
    assert_eq!(trace_file_name(Some("app"), 0), "app_trace_0.json");
}

#[test]
fn deterministic_naming() {
    let dir = candidate_dir(Some("/opt/bin"), "/src/pkg");
    let first = trace_path(None, &dir, true, Some("app"), 1234, "/src/pkg");
    let second = trace_path(None, &dir, true, Some("app"), 1234, "/src/pkg");
    assert_eq!(first, "/opt/bin/traces/app_trace_1234.json");
    assert_eq!(first, second);
}

#[test]
fn distinct_instants_give_distinct_files() {
    let a = trace_path(None, "/opt/bin/traces", true, Some("app"), 1234, "/src/pkg");
    let b = trace_path(None, "/opt/bin/traces", true, Some("app"), 1235, "/src/pkg");
    assert_ne!(a, b);
}

#[test]
fn override_precedence() {
    for created in [true, false] {
        for name in [Some("app"), None] {
            let r = trace_path(Some("/tmp/out.json"), "/opt/bin/traces", created, name, 99, "/src/pkg");
            assert_eq!(r, "/tmp/out.json");
        }
    }
}

#[test]
fn empty_override_is_ignored() {
    let r = trace_path(Some(""), "/opt/bin/traces", true, Some("app"), 99, "/src/pkg");
    assert_eq!(r, "/opt/bin/traces/app_trace_99.json");
}

#[test]
fn fallback_when_directory_creation_fails() {
    let r = trace_path(None, "/opt/bin/traces", false, Some("app"), 99, "/src/pkg");
    assert_eq!(r, "/src/pkg");
}

#[test]
fn directory_needed_only_without_override() {
    assert!(needs_trace_dir(None));
    assert!(needs_trace_dir(Some("")));
    assert!(!needs_trace_dir(Some("/tmp/out.json")));
}
