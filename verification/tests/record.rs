use request_proxy::response::build_response_record;

fn headers(hs: Vec<(&str, &str)>) -> Vec<(String, String)> {
    hs.into_iter().map(|(k, v)| (k.to_string(), v.to_string())).collect()
}

#[test]
fn record_carries_status_headers_and_body() {
    let r = build_response_record(
        201,
        headers(vec![("content-type", "application/json"), ("server", "s")]),
        "{\"ok\":true}".to_string(),
    );
    assert_eq!(r.status, 201);
    assert_eq!(r.output, "{\"ok\":true}");
    assert_eq!(r.content_type, "application/json");
    assert_eq!(
        r.headers,
        headers(vec![("content-type", "application/json"), ("server", "s")])
    );
}

#[test]
fn missing_content_type_defaults_to_text_plain() {
    let r = build_response_record(404, headers(vec![("server", "s")]), "gone".to_string());
    assert_eq!(r.status, 404);
    assert_eq!(r.content_type, "text/plain");
    assert_eq!(r.output, "gone");
}

#[test]
fn empty_header_list_defaults_to_text_plain() {
    let r = build_response_record(204, headers(vec![]), String::new());
    assert_eq!(r.content_type, "text/plain");
    assert_eq!(r.output, "");
}

#[test]
fn content_type_name_is_matched_case_insensitively() {
    let r = build_response_record(
        200,
        headers(vec![("Content-Type", "text/html")]),
        "<html></html>".to_string(),
    );
    assert_eq!(r.content_type, "text/html");
}

#[test]
fn first_content_type_header_wins() {
    let r = build_response_record(
        200,
        headers(vec![("content-type", "text/html"), ("content-type", "text/css")]),
        String::new(),
    );
    assert_eq!(r.content_type, "text/html");
}
