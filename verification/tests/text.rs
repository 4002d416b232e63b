use request_proxy::form::form_fields;
use request_proxy::text::{str_contains, str_eq, str_eq_ignore_case};

#[test]
fn exact_equality_is_exact() {
    assert!(str_eq("GET", "GET"));
    assert!(!str_eq("GET", "get"));
    assert!(!str_eq("GET", "GETS"));
    assert!(str_eq("", ""));
}

#[test]
fn case_insensitive_equality_folds_ascii_only() {
    assert!(str_eq_ignore_case("Content-Type", "content-type"));
    assert!(str_eq_ignore_case("CONTENT-TYPE", "content-type"));
    assert!(!str_eq_ignore_case("content-type", "content_type"));
    assert!(!str_eq_ignore_case("content-type", "content-typ"));
}

#[test]
fn substring_search_finds_form_where_it_is() {
    assert!(str_contains("multipart/form-data", "form"));
    assert!(str_contains("application/x-www-form-urlencoded", "form"));
    assert!(str_contains("form", "form"));
    assert!(!str_contains("for", "form"));
    assert!(!str_contains("application/json", "form"));
    assert!(str_contains("anything", ""));
}

#[test]
fn form_fields_keeps_only_top_level_string_fields() {
    let fs = form_fields("{\"a\":\"1\",\"b\":[\"2\"],\"c\":\"3\"}");
    let got: Vec<(&str, &str)> = fs.iter().map(|(k, v)| (k.as_str(), v.as_str())).collect();
    assert_eq!(got, vec![("a", "1"), ("c", "3")]);
}

#[test]
fn form_fields_of_invalid_json_are_empty() {
    assert!(form_fields("{oops").is_empty());
    assert!(form_fields("").is_empty());
    assert!(form_fields("42").is_empty());
}
