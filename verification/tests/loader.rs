//! Document discovery and snapshot building.

use layered_config::ConfError;
use layered_config::Accessor;
use layered_config::Snapshot;
use layered_config::build_snapshot;
use layered_config::select_yaml_paths;

fn strings(items: &[&str]) -> Vec<String> {
    items.iter().map(|s| s.to_string()).collect()
}

fn pairs(items: &[(&str, &str)]) -> Vec<(String, String)> {
    items.iter().map(|(k, v)| (k.to_string(), v.to_string())).collect()
}

fn snap(docs: &[&str], env: &[(&str, &str)], prefix: &str) -> Snapshot {
    build_snapshot(&strings(docs), pairs(env), prefix).unwrap()
}

#[test]
fn select_keeps_only_yaml_entries() {
    let entries = strings(&["conf/a.yaml", "conf/readme.md", "conf/b.yaml", "conf/b.yml"]);
    let selected = select_yaml_paths(&entries);
    assert_eq!(selected, strings(&["conf/a.yaml", "conf/b.yaml"]));
}

#[test]
fn select_keeps_listing_order() {
    let entries = strings(&["z.yaml", "a.yaml", "m.yaml"]);
    let selected = select_yaml_paths(&entries);
    assert_eq!(selected, strings(&["z.yaml", "a.yaml", "m.yaml"]));
}

#[test]
fn select_nothing_without_the_extension() {
    let entries = strings(&["a.toml", "b.json", "c.yaml.bak", "yaml"]);
    let selected = select_yaml_paths(&entries);
    assert!(selected.is_empty());
}

#[test]
fn select_of_empty_listing_is_empty() {
    let selected = select_yaml_paths(&Vec::new());
    assert!(selected.is_empty());
}

#[test]
fn no_documents_still_builds_a_snapshot() {
    let s = snap(&[], &[("APP_MODE", "fast")], "APP");
    assert_eq!(s.get_str("mode").unwrap(), "fast");
}

#[test]
fn env_only_snapshot_holds_only_env_keys() {
    let s = snap(&[], &[("APP_MODE", "fast")], "APP");
    let err = s.get_str("anything.else").unwrap_err();
    assert!(err.is_not_found());
}

#[test]
fn env_without_matching_prefix_is_excluded() {
    let s = snap(&[], &[("OTHER_MODE", "x"), ("APPX_MODE", "y")], "APP");
    assert!(s.get_str("mode").unwrap_err().is_not_found());
    assert!(s.get_str("x_mode").unwrap_err().is_not_found());
}

#[test]
fn env_name_is_lowercased_and_nested() {
    let s = snap(&[], &[("APP_SERVER_HOST", "localhost")], "APP");
    assert_eq!(s.get_str("server.host").unwrap(), "localhost");
}

#[test]
fn malformed_document_fails_the_whole_build() {
    let r = build_snapshot(&strings(&["a: [1,\n"]), Vec::new(), "APP");
    let err = r.unwrap_err();
    assert!(err.is_build_failed());
    assert!(!err.message().is_empty());
}

#[test]
fn one_malformed_document_fails_despite_good_ones() {
    let r = build_snapshot(&strings(&["good: 1\n", "bad: [1,\n"]), Vec::new(), "APP");
    assert!(r.unwrap_err().is_build_failed());
}

#[test]
fn empty_document_is_an_empty_mapping() {
    let s = snap(&[""], &[], "APP");
    assert!(s.get_str("anything").unwrap_err().is_not_found());
}

#[test]
fn directory_unreadable_error_carries_the_path() {
    let e: ConfError = layered_config::errors::directory_unreadable_error("/no/such/dir");
    assert!(e.is_directory_unreadable());
    assert_eq!(e.message().as_str(), "/no/such/dir");
}

#[test]
fn deeply_nested_document_is_refused() {
    let doc = "- ".repeat(10001);
    let r = build_snapshot(&vec![doc], Vec::new(), "APP");
    let err = r.unwrap_err();
    assert!(err.is_build_failed());
}

#[test]
fn flat_document_with_room_to_spare_builds() {
    let doc = "k: 1\n";
    let s = snap(&[doc], &[], "APP");
    assert_eq!(s.get_int("k").unwrap(), 1);
}

#[test]
fn env_only_tree_holds_exactly_the_derived_keys() {
    let s = snap(&[], &[("APP_SERVER_PORT", "9090")], "APP");
    let server = s.get_table("server").unwrap();
    assert_eq!(server.len(), 1);
    assert_eq!(server.get("port").unwrap().clone().into_string().unwrap(), "9090");
    assert!(s.get_str("server.host").unwrap_err().is_not_found());
    assert!(s.get_str("other").unwrap_err().is_not_found());
}
