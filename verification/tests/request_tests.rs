use httpie::request::{plan_request, render_summary, Command, Method};
use httpie::ColorMode;
use httpie::HttpieError;
use httpie::KvPair;

fn pair(k: &str, v: &str) -> KvPair {
    KvPair {
        k: k.to_string(),
        v: v.to_string(),
    }
}

#[test]
fn get_plan_has_no_body() {
    let cmd = Command::Get {
        url: "http://example.test/".to_string(),
    };
    let plan = plan_request(&cmd).unwrap();
    assert_eq!(plan.method, Method::Get);
    assert_eq!(plan.url, "http://example.test/");
    assert!(plan.body.is_none());
    assert!(plan.content_type.is_none());
}

#[test]
fn post_plan_carries_json_body_and_content_type() {
    let cmd = Command::Post {
        url: "http://example.test/".to_string(),
        pairs: vec![pair("a", "1"), pair("b", "2")],
    };
    let plan = plan_request(&cmd).unwrap();
    assert_eq!(plan.method, Method::Post);
    assert_eq!(plan.url, "http://example.test/");
    assert_eq!(plan.content_type.as_deref(), Some("application/json"));
    let body = plan.body.unwrap();
    let got: serde_json::Value = serde_json::from_str(&body).unwrap();
    let want: serde_json::Value = serde_json::from_str("{\"a\":\"1\",\"b\":\"2\"}").unwrap();
    assert_eq!(got, want);
}

#[test]
fn plan_rejects_invalid_url() {
    let cmd = Command::Get {
        url: "not a url".to_string(),
    };
    assert!(matches!(plan_request(&cmd), Err(HttpieError::InvalidUrl)));
}

#[test]
fn plan_rejects_relative_url() {
    let cmd = Command::Get {
        url: "/just/a/path".to_string(),
    };
    assert!(matches!(plan_request(&cmd), Err(HttpieError::InvalidUrl)));
}

#[test]
fn plan_normalizes_the_url() {
    let cmd = Command::Get {
        url: "HTTP://EXAMPLE.TEST".to_string(),
    };
    let plan = plan_request(&cmd).unwrap();
    assert_eq!(plan.url, "http://example.test/");
}

#[test]
fn get_summary_plain() {
    let cmd = Command::Get {
        url: "http://example.test/".to_string(),
    };
    let s = render_summary(&cmd, ColorMode::Auto, false);
    assert_eq!(s, "GET http://example.test/ (color=auto)");
}

#[test]
fn post_summary_lists_pairs() {
    let cmd = Command::Post {
        url: "http://example.test/".to_string(),
        pairs: vec![pair("a", "1"), pair("b", "2")],
    };
    let s = render_summary(&cmd, ColorMode::Never, false);
    assert_eq!(s, "POST http://example.test/, [a=1, b=2] (color=never)");
}

#[test]
fn get_summary_colorized() {
    let cmd = Command::Get {
        url: "http://example.test/".to_string(),
    };
    let s = render_summary(&cmd, ColorMode::Always, true);
    assert_eq!(
        s,
        "GET \u{1b}[32mhttp://example.test/\u{1b}[39m (color=always)"
    );
}

#[test]
fn post_summary_colorized() {
    let cmd = Command::Post {
        url: "http://example.test/".to_string(),
        pairs: vec![pair("a", "1")],
    };
    let s = render_summary(&cmd, ColorMode::Always, true);
    assert_eq!(
        s,
        "POST \u{1b}[92mhttp://example.test/\u{1b}[39m, \u{1b}[94m[a=1]\u{1b}[39m (color=always)"
    );
}

#[test]
fn color_mode_resolution() {
    assert!(ColorMode::Always.use_color(false));
    assert!(ColorMode::Always.use_color(true));
    assert!(!ColorMode::Never.use_color(true));
    assert!(!ColorMode::Never.use_color(false));
    assert!(ColorMode::Auto.use_color(true));
    assert!(!ColorMode::Auto.use_color(false));
}

#[test]
fn color_mode_names() {
    assert_eq!(ColorMode::Always.as_str(), "always");
    assert_eq!(ColorMode::Auto.as_str(), "auto");
    assert_eq!(ColorMode::Never.as_str(), "never");
}
