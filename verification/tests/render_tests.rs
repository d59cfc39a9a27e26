use httpie::render::{find_content_type, render_body, render_response, render_status_line, Response};

fn resp(content_type: &str, body: &str) -> Response {
    Response {
        version: "HTTP/1.1".to_string(),
        status: 200,
        reason: "OK".to_string(),
        headers: vec![("content-type".to_string(), content_type.to_string())],
        body: body.to_string(),
    }
}

#[test]
fn json_body_is_pretty_printed() {
    let r = resp("application/json", "{\"x\":1}");
    let out = render_response(&r, false);
    assert_eq!(
        out,
        "HTTP/1.1 200 OK\n\ncontent-type: application/json\n\n{\n  \"x\": 1\n}\n"
    );
}

#[test]
fn plain_body_is_unchanged() {
    let r = resp("text/plain", "hello");
    let out = render_response(&r, false);
    assert_eq!(out, "HTTP/1.1 200 OK\n\ncontent-type: text/plain\n\nhello\n");
}

#[test]
fn missing_content_type_prints_raw_body() {
    let r = Response {
        version: "HTTP/1.1".to_string(),
        status: 204,
        reason: "No Content".to_string(),
        headers: Vec::new(),
        body: "{\"x\":1}".to_string(),
    };
    let out = render_response(&r, false);
    assert_eq!(out, "HTTP/1.1 204 No Content\n\n\n{\"x\":1}\n");
}

#[test]
fn json_content_type_with_parameters_still_pretty_prints() {
    let r = resp("application/json; charset=utf-8", "{\"x\":1}");
    let out = render_response(&r, false);
    assert_eq!(
        out,
        "HTTP/1.1 200 OK\n\ncontent-type: application/json; charset=utf-8\n\n{\n  \"x\": 1\n}\n"
    );
}

#[test]
fn non_json_body_still_goes_through_the_formatter() {
    let r = resp("application/json", "not json");
    let out = render_response(&r, false);
    assert_eq!(
        out,
        "HTTP/1.1 200 OK\n\ncontent-type: application/json\n\nnotjson\n"
    );
}

#[test]
fn status_line_is_colorized() {
    let out = render_status_line("HTTP/1.1", 404, "Not Found", true);
    assert_eq!(out, "\u{1b}[34mHTTP/1.1 404 Not Found\u{1b}[39m\n\n");
}

#[test]
fn status_line_plain() {
    let out = render_status_line("HTTP/2.0", 500, "Internal Server Error", false);
    assert_eq!(out, "HTTP/2.0 500 Internal Server Error\n\n");
}

#[test]
fn colorized_response_wraps_each_part() {
    let r = resp("text/plain", "hi");
    let out = render_response(&r, true);
    assert_eq!(
        out,
        "\u{1b}[34mHTTP/1.1 200 OK\u{1b}[39m\n\n\u{1b}[32mcontent-type\u{1b}[39m: text/plain\n\nhi\n"
    );
}

#[test]
fn json_body_colorized_is_cyan() {
    let out = render_body(&Some("application/json".to_string()), "{\"x\":1}", true);
    assert_eq!(out, "\u{1b}[36m{\n  \"x\": 1\n}\u{1b}[39m\n");
}

#[test]
fn headers_keep_transport_order_and_duplicates() {
    let r = Response {
        version: "HTTP/1.1".to_string(),
        status: 200,
        reason: "OK".to_string(),
        headers: vec![
            ("set-cookie".to_string(), "a=1".to_string()),
            ("set-cookie".to_string(), "b=2".to_string()),
        ],
        body: "".to_string(),
    };
    let out = render_response(&r, false);
    assert_eq!(
        out,
        "HTTP/1.1 200 OK\n\nset-cookie: a=1\nset-cookie: b=2\n\n\n"
    );
}

#[test]
fn first_content_type_header_wins() {
    let headers = vec![
        ("content-type".to_string(), "text/plain".to_string()),
        ("content-type".to_string(), "application/json".to_string()),
    ];
    assert_eq!(find_content_type(&headers).as_deref(), Some("text/plain"));
}

#[test]
fn no_content_type_header_found() {
    let headers = vec![("server".to_string(), "test".to_string())];
    assert!(find_content_type(&headers).is_none());
}
