//! Typed reads against the merged snapshot: precedence, coercion, errors,
//! and whole-tree extraction.

use std::collections::HashMap;

use layered_config::Accessor;
use layered_config::Snapshot;
use layered_config::build_snapshot;
use layered_config::select_yaml_paths;

fn strings(items: &[&str]) -> Vec<String> {
    items.iter().map(|s| s.to_string()).collect()
}

fn pairs(items: &[(&str, &str)]) -> Vec<(String, String)> {
    items.iter().map(|(k, v)| (k.to_string(), v.to_string())).collect()
}

fn snap(docs: &[&str], env: &[(&str, &str)], prefix: &str) -> Snapshot {
    build_snapshot(&strings(docs), pairs(env), prefix).unwrap()
}

#[test]
fn disjoint_documents_merge_to_the_union() {
    let s = snap(&["alpha: 1\n", "beta: 2\nnested:\n  gamma: 3\n"], &[], "APP");
    assert_eq!(s.get_int("alpha").unwrap(), 1);
    assert_eq!(s.get_int("beta").unwrap(), 2);
    assert_eq!(s.get_int("nested.gamma").unwrap(), 3);
}

#[test]
fn environment_wins_over_file_value() {
    let s = snap(
        &["server:\n  port: 8080\n"],
        &[("APP_SERVER_PORT", "9090")],
        "APP",
    );
    assert_eq!(s.get_int("server.port").unwrap(), 9090);
}

#[test]
fn scenario_base_file_with_env_override() {
    let entries = strings(&["conf/base.yaml", "conf/notes.txt"]);
    let found = select_yaml_paths(&entries);
    assert_eq!(found, strings(&["conf/base.yaml"]));
    let s = snap(
        &["server:\n  port: 8080\n"],
        &[("APP_SERVER_PORT", "9090")],
        "APP",
    );
    assert_eq!(s.get_int("server.port").unwrap(), 9090);
}

#[test]
fn file_value_stands_without_an_override() {
    let s = snap(&["server:\n  port: 8080\n"], &[("APP_OTHER", "1")], "APP");
    assert_eq!(s.get_int("server.port").unwrap(), 8080);
}

#[test]
fn numeric_string_coerces_to_int() {
    let s = snap(&["k: \"42\"\n"], &[], "APP");
    assert_eq!(s.get_int("k").unwrap(), 42);
}

#[test]
fn non_numeric_string_is_a_type_mismatch() {
    let s = snap(&["k: \"abc\"\n"], &[], "APP");
    assert!(s.get_int("k").unwrap_err().is_type_mismatch());
}

#[test]
fn missing_key_is_not_found() {
    let s = snap(&["present: 1\n"], &[], "APP");
    let err = s.get_str("missing.key").unwrap_err();
    assert!(err.is_not_found());
    assert_eq!(err.message().as_str(), "missing.key");
}

#[test]
fn missing_key_is_not_found_for_every_getter() {
    let s = snap(&["present: 1\n"], &[], "APP");
    assert!(s.get_str("absent").unwrap_err().is_not_found());
    assert!(s.get_int("absent").unwrap_err().is_not_found());
    assert!(s.get_bool("absent").unwrap_err().is_not_found());
    assert!(s.get_table("absent").unwrap_err().is_not_found());
    assert!(s.get_array("absent").unwrap_err().is_not_found());
}

#[test]
fn whole_tree_round_trips_through_deserialization() {
    let s = snap(&["server:\n  port: 8080\n  workers: 4\nlimits:\n  depth: 2\n"], &[], "APP");
    let merged: HashMap<String, HashMap<String, i64>> =
        s.into_inner().try_deserialize().unwrap();
    let mut expected: HashMap<String, HashMap<String, i64>> = HashMap::new();
    let mut server = HashMap::new();
    server.insert("port".to_string(), 8080);
    server.insert("workers".to_string(), 4);
    let mut limits = HashMap::new();
    limits.insert("depth".to_string(), 2);
    expected.insert("server".to_string(), server);
    expected.insert("limits".to_string(), limits);
    assert_eq!(merged, expected);
}

#[test]
fn get_str_returns_a_string_unchanged() {
    let s = snap(&["greeting: hello world\n"], &[], "APP");
    assert_eq!(s.get_str("greeting").unwrap(), "hello world");
}

#[test]
fn get_str_renders_an_int() {
    let s = snap(&["port: 8080\n"], &[], "APP");
    assert_eq!(s.get_str("port").unwrap(), "8080");
}

#[test]
fn get_str_on_a_table_is_a_type_mismatch() {
    let s = snap(&["server:\n  port: 8080\n"], &[], "APP");
    assert!(s.get_str("server").unwrap_err().is_type_mismatch());
}

#[test]
fn get_bool_reads_a_boolean() {
    let s = snap(&["flag: true\nother: false\n"], &[], "APP");
    assert!(s.get_bool("flag").unwrap());
    assert!(!s.get_bool("other").unwrap());
}

#[test]
fn get_bool_compares_an_int_with_zero() {
    let s = snap(&["one: 1\nzero: 0\n"], &[], "APP");
    assert!(s.get_bool("one").unwrap());
    assert!(!s.get_bool("zero").unwrap());
}

#[test]
fn get_bool_reads_a_truth_word() {
    let s = snap(&[], &[("APP_FLAG", "on")], "APP");
    assert!(s.get_bool("flag").unwrap());
}

#[test]
fn get_bool_on_an_array_is_a_type_mismatch() {
    let s = snap(&["xs:\n  - 1\n"], &[], "APP");
    assert!(s.get_bool("xs").unwrap_err().is_type_mismatch());
}

#[test]
fn get_int_reads_a_bool_as_one_or_zero() {
    let s = snap(&["yes_flag: true\nno_flag: false\n"], &[], "APP");
    assert_eq!(s.get_int("yes_flag").unwrap(), 1);
    assert_eq!(s.get_int("no_flag").unwrap(), 0);
}

#[test]
fn get_table_returns_the_direct_children() {
    let s = snap(&["server:\n  port: 8080\n  host: h\n"], &[], "APP");
    let t = s.get_table("server").unwrap();
    assert_eq!(t.len(), 2);
    assert_eq!(t.get("port").unwrap().clone().into_int().unwrap(), 8080);
    assert_eq!(t.get("host").unwrap().clone().into_string().unwrap(), "h");
}

#[test]
fn get_table_on_a_scalar_is_a_type_mismatch() {
    let s = snap(&["k: 5\n"], &[], "APP");
    assert!(s.get_table("k").unwrap_err().is_type_mismatch());
}

#[test]
fn get_array_returns_the_elements_in_order() {
    let s = snap(&["xs:\n  - 10\n  - 20\n  - 30\n"], &[], "APP");
    let xs = s.get_array("xs").unwrap();
    assert_eq!(xs.len(), 3);
    assert_eq!(xs[0].clone().into_int().unwrap(), 10);
    assert_eq!(xs[1].clone().into_int().unwrap(), 20);
    assert_eq!(xs[2].clone().into_int().unwrap(), 30);
}

#[test]
fn get_array_on_a_scalar_is_a_type_mismatch() {
    let s = snap(&["k: hello\n"], &[], "APP");
    assert!(s.get_array("k").unwrap_err().is_type_mismatch());
}

#[test]
fn inner_ref_reads_the_same_tree() {
    let s = snap(&["k: 7\n"], &[], "APP");
    assert_eq!(s.inner_ref().get_int("k").unwrap(), 7);
    assert_eq!(s.get_int("k").unwrap(), 7);
}

#[test]
fn get_int_reads_truth_words() {
    let s = snap(&["a: \"on\"\nb: \"NO\"\nc: \"Yes\"\n"], &[], "APP");
    assert_eq!(s.get_int("a").unwrap(), 1);
    assert_eq!(s.get_int("b").unwrap(), 0);
    assert_eq!(s.get_int("c").unwrap(), 1);
}

#[test]
fn get_int_parses_signed_decimals() {
    let s = snap(&["neg: \"-7\"\npos: \"+5\"\n"], &[], "APP");
    assert_eq!(s.get_int("neg").unwrap(), -7);
    assert_eq!(s.get_int("pos").unwrap(), 5);
}

#[test]
fn get_bool_rejects_a_stray_number_word() {
    let s = snap(&["k: \"2\"\n"], &[], "APP");
    assert!(s.get_bool("k").unwrap_err().is_type_mismatch());
}

#[test]
fn get_bool_reads_mixed_case_words() {
    let s = snap(&["a: \"Off\"\nb: \"TRUE\"\n"], &[], "APP");
    assert!(!s.get_bool("a").unwrap());
    assert!(s.get_bool("b").unwrap());
}

#[test]
fn get_str_renders_a_bool() {
    let s = snap(&["flag: true\n"], &[], "APP");
    assert_eq!(s.get_str("flag").unwrap(), "true");
}

#[test]
fn environment_wins_for_a_string_value() {
    let s = snap(&["greeting: from the file\n"], &[("APP_GREETING", "hi")], "APP");
    assert_eq!(s.get_str("greeting").unwrap(), "hi");
}
