use request_proxy::method::{parse_method, Method};
use request_proxy::plan::{build_request_plan, BodyPlan, RequestPayload};

fn payload(method: &str, headers: Vec<(&str, &str)>, body: Option<&str>) -> RequestPayload {
    RequestPayload {
        method: method.to_string(),
        headers: headers
            .into_iter()
            .map(|(k, v)| (k.to_string(), v.to_string()))
            .collect(),
        body: body.map(|b| b.to_string()),
    }
}

fn pairs(hs: &[(String, String)]) -> Vec<(&str, &str)> {
    hs.iter().map(|(k, v)| (k.as_str(), v.as_str())).collect()
}

#[test]
fn each_supported_method_is_planned_exactly() {
    let cases = [
        ("GET", Method::Get),
        ("POST", Method::Post),
        ("PUT", Method::Put),
        ("PATCH", Method::Patch),
        ("DELETE", Method::Delete),
    ];
    for (name, expected) in cases {
        let plan = build_request_plan(
            "http://example.com/".to_string(),
            payload(name, vec![], None),
        )
        .unwrap();
        assert_eq!(plan.method, expected);
        assert_eq!(plan.url, "http://example.com/");
    }
}

#[test]
fn parse_method_accepts_exactly_the_supported_names() {
    assert_eq!(parse_method("GET"), Some(Method::Get));
    assert_eq!(parse_method("DELETE"), Some(Method::Delete));
    assert_eq!(parse_method("TRACE"), None);
    assert_eq!(parse_method("get"), None);
    assert_eq!(parse_method(""), None);
}

#[test]
fn method_names_round_trip() {
    for m in [Method::Get, Method::Post, Method::Put, Method::Patch, Method::Delete] {
        assert_eq!(parse_method(m.name()), Some(m));
    }
}

#[test]
fn unsupported_method_is_rejected_before_anything_else() {
    let r = build_request_plan(
        "http://example.com/".to_string(),
        payload("TRACE", vec![("Authorization", "Bearer x")], Some("{}")),
    );
    assert_eq!(r.unwrap_err(), "Invalid method");
}

#[test]
fn lowercase_method_is_rejected() {
    let r = build_request_plan("http://example.com/".to_string(), payload("get", vec![], None));
    assert_eq!(r.unwrap_err(), "Invalid method");
}

#[test]
fn headers_are_forwarded_with_the_fixed_user_agent_and_no_body() {
    let plan = build_request_plan(
        "http://example.com/".to_string(),
        payload("GET", vec![("Authorization", "Bearer x")], None),
    )
    .unwrap();
    assert_eq!(
        pairs(&plan.headers),
        vec![("Authorization", "Bearer x"), ("User-Agent", "RecipeUI/1")]
    );
    assert!(matches!(plan.body, BodyPlan::Empty));
}

#[test]
fn raw_body_without_content_type_defaults_to_json() {
    let plan = build_request_plan(
        "http://example.com/".to_string(),
        payload("POST", vec![], Some("{\"x\":1}")),
    )
    .unwrap();
    assert_eq!(
        pairs(&plan.headers),
        vec![
            ("User-Agent", "RecipeUI/1"),
            ("Content-Type", "application/json"),
        ]
    );
    match plan.body {
        BodyPlan::Raw(b) => assert_eq!(b, "{\"x\":1}"),
        _ => panic!("expected a raw body"),
    }
}

#[test]
fn raw_body_with_caller_content_type_keeps_it() {
    let plan = build_request_plan(
        "http://example.com/".to_string(),
        payload("POST", vec![("Content-Type", "text/xml")], Some("<a/>")),
    )
    .unwrap();
    assert_eq!(
        pairs(&plan.headers),
        vec![("Content-Type", "text/xml"), ("User-Agent", "RecipeUI/1")]
    );
    match plan.body {
        BodyPlan::Raw(b) => assert_eq!(b, "<a/>"),
        _ => panic!("expected a raw body"),
    }
}

#[test]
fn multipart_content_type_switches_to_form_and_is_not_forwarded() {
    let plan = build_request_plan(
        "http://example.com/".to_string(),
        payload(
            "POST",
            vec![("content-type", "multipart/form-data")],
            Some("{\"a\":\"1\",\"b\":\"2\"}"),
        ),
    )
    .unwrap();
    assert_eq!(pairs(&plan.headers), vec![("User-Agent", "RecipeUI/1")]);
    match plan.body {
        BodyPlan::Form(fs) => assert_eq!(
            pairs(&fs),
            vec![("a", "1"), ("b", "2")]
        ),
        _ => panic!("expected a form body"),
    }
}

#[test]
fn form_switch_matches_header_name_case_insensitively() {
    let plan = build_request_plan(
        "http://example.com/".to_string(),
        payload(
            "POST",
            vec![("Content-Type", "application/x-www-form-urlencoded")],
            Some("{\"k\":\"v\"}"),
        ),
    )
    .unwrap();
    assert_eq!(pairs(&plan.headers), vec![("User-Agent", "RecipeUI/1")]);
    match plan.body {
        BodyPlan::Form(fs) => assert_eq!(pairs(&fs), vec![("k", "v")]),
        _ => panic!("expected a form body"),
    }
}

#[test]
fn invalid_json_body_gives_an_empty_form_without_error() {
    let plan = build_request_plan(
        "http://example.com/".to_string(),
        payload(
            "POST",
            vec![("content-type", "multipart/form-data")],
            Some("not json at all"),
        ),
    )
    .unwrap();
    match plan.body {
        BodyPlan::Form(fs) => assert!(fs.is_empty()),
        _ => panic!("expected a form body"),
    }
}

#[test]
fn non_string_json_fields_are_dropped_from_the_form() {
    let plan = build_request_plan(
        "http://example.com/".to_string(),
        payload(
            "POST",
            vec![("content-type", "multipart/form-data")],
            Some("{\"a\":\"1\",\"b\":2,\"c\":true,\"d\":{\"e\":\"f\"}}"),
        ),
    )
    .unwrap();
    match plan.body {
        BodyPlan::Form(fs) => assert_eq!(pairs(&fs), vec![("a", "1")]),
        _ => panic!("expected a form body"),
    }
}

#[test]
fn non_object_json_body_gives_an_empty_form() {
    let plan = build_request_plan(
        "http://example.com/".to_string(),
        payload(
            "POST",
            vec![("content-type", "multipart/form-data")],
            Some("[\"a\",\"b\"]"),
        ),
    )
    .unwrap();
    match plan.body {
        BodyPlan::Form(fs) => assert!(fs.is_empty()),
        _ => panic!("expected a form body"),
    }
}

#[test]
fn form_trigger_without_a_body_plans_no_body() {
    let plan = build_request_plan(
        "http://example.com/".to_string(),
        payload("GET", vec![("content-type", "multipart/form-data")], None),
    )
    .unwrap();
    assert_eq!(pairs(&plan.headers), vec![("User-Agent", "RecipeUI/1")]);
    assert!(matches!(plan.body, BodyPlan::Empty));
}
