use media_resolver::embedded::{extract, extract_with_marker};
use media_resolver::error::ResolutionError;
use media_resolver::json::{get, text, Json, JsonNumber};

fn captured(pattern: &str, html: &str) -> Option<String> {
    let re = regex::Regex::new(pattern).unwrap();
    re.captures(html).map(|c| c.get(1).unwrap().as_str().trim().to_string())
}

#[test]
fn state_is_taken_from_the_assignment() {
    let html = "<html><script>window._ROUTER_DATA = {\"a\": {\"b\": \"c\"}}</script></html>";
    let state = extract(html, "window._ROUTER_DATA").unwrap();
    let b = text(get(get(Some(&state), "a"), "b")).unwrap();
    assert_eq!(b, "c");
}

#[test]
fn undefined_is_read_as_null() {
    let html = "<script>window.__INITIAL_STATE__={\"a\":undefined,\"b\":[undefined,1]}</script>";
    let state = extract(html, "window.__INITIAL_STATE__").unwrap();
    assert_eq!(
        state,
        Json::Object(vec![
            ("a".to_string(), Json::Null),
            (
                "b".to_string(),
                Json::Array(vec![Json::Null, Json::Number(JsonNumber::PosInt(1))])
            ),
        ])
    );
}

#[test]
fn page_without_the_assignment_is_a_changed_format() {
    assert_eq!(
        extract("<html><body>nothing</body></html>", "window._ROUTER_DATA"),
        Err(ResolutionError::UpstreamFormatChanged)
    );
    assert_eq!(extract("", "window._ROUTER_DATA"), Err(ResolutionError::UpstreamFormatChanged));
    assert_eq!(
        extract("window._ROUTER_DATA = {}", "window._ROUTER_DATA"),
        Err(ResolutionError::UpstreamFormatChanged)
    );
}

#[test]
fn text_that_is_no_json_is_malformed_with_a_snippet() {
    let long = "a".repeat(300);
    let html = format!("<script>window.INIT_STATE = {{oops {}</script>", long);
    match extract(&html, "window.INIT_STATE") {
        Err(ResolutionError::MalformedEmbeddedState(snippet)) => {
            assert_eq!(snippet.chars().count(), 100);
            assert!(snippet.starts_with("{oops aaa"));
        }
        other => panic!("unexpected {:?}", other),
    }
}

#[test]
fn value_with_a_line_break_is_passed_over() {
    let html = "<script>window.S = {\n}</script><script>window.S = {\"k\":1}</script>";
    let state = extract(html, "window.S").unwrap();
    assert_eq!(
        state,
        Json::Object(vec![("k".to_string(), Json::Number(JsonNumber::PosInt(1)))])
    );
}

#[test]
fn name_without_assignment_is_passed_over() {
    let html = "<script>use(window.S); window.S\n =\n\t[1]</script>";
    assert_eq!(
        extract(html, "window.S").unwrap(),
        Json::Array(vec![Json::Number(JsonNumber::PosInt(1))])
    );
}

#[test]
fn other_marker_closes_the_value() {
    let html = "<script>var $render_data = [{\"status\":{\"text\":\"hi\"}}][0] || {};</script>";
    let state = extract_with_marker(html, "$render_data", "[0]").unwrap();
    match state {
        Json::Array(items) => assert_eq!(items.len(), 1),
        other => panic!("unexpected {:?}", other),
    }
}

fn by_pattern(pattern: &str, html: &str) -> Option<Option<Json>> {
    captured(pattern, html).map(|t| Json::parse(&t.replace("undefined", "null")))
}

fn by_library(html: &str, name: &str, marker: &str) -> Option<Option<Json>> {
    match extract_with_marker(html, name, marker) {
        Ok(state) => Some(Some(state)),
        Err(ResolutionError::MalformedEmbeddedState(_)) => Some(None),
        Err(ResolutionError::UpstreamFormatChanged) => None,
        Err(other) => panic!("unexpected {:?}", other),
    }
}

#[test]
fn located_text_agrees_with_the_pattern() {
    let samples = [
        "<script>window.INIT_STATE = {\"a\":1}</script>",
        "<script>window.INIT_STATE={\"a\":1}  </script> tail </script>",
        "window.INIT_STATE window.INIT_STATE = [1,2]</script>",
        "<script>window.INIT_STATE = \n {\"a\":\n1}</script><script>window.INIT_STATE = 7</script>",
        "window.INIT_STATE = </script>",
        "window.INIT_STATE == 3</script>",
        "window.INIT_STATE\u{3000}=\t\r\n{\"k\": undefined}\u{a0}</script>",
        "window.INIT_STATE = {\"s\": \"</script>\"}</script>",
        "window.INIT_STATE = 1",
        "xwindow.INIT_STATEwindow.INIT_STATE=\"undefined\"</script>",
        "window.INIT_STATE = [\"a\rb\"]</script>",
        "window.INIT_STATE=\n\n</script>window.INIT_STATE=2</script>",
        "",
    ];
    for html in samples {
        assert_eq!(
            by_library(html, "window.INIT_STATE", "</script>"),
            by_pattern(r"window\.INIT_STATE\s*=\s*(.*?)</script>", html),
            "{:?}",
            html
        );
    }
}

#[test]
fn located_text_with_the_other_marker_agrees_with_the_pattern() {
    let samples = [
        "var $render_data = [{\"status\": 1}][0] || {};",
        "$render_data=[0]",
        "$render_data = [[0],[0]][0]",
        "$render_data = {\n}[0] $render_data = {}[0]",
        "$render_data [0]",
        "render_data = 1[0]",
    ];
    for html in samples {
        assert_eq!(
            by_library(html, "$render_data", "[0]"),
            by_pattern(r"\$render_data\s*=\s*(.*?)\[0\]", html),
            "{:?}",
            html
        );
    }
}
