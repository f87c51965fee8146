use media_resolver::error::ResolutionError;
use media_resolver::protocol::{
    probe_request, redirect_request, resolve_redirect, HttpEvent, HttpRequest, Location, Method,
    MAX_REDIRECT_HOPS,
};

fn response(status: u16, location: Location) -> HttpEvent {
    HttpEvent::Response { status, location, body: "body".to_string() }
}

#[test]
fn request_is_built_field_by_field() {
    let request = HttpRequest::get("https://a.example/".to_string())
        .header("User-Agent", "agent")
        .header("Referer", "https://b.example/")
        .no_redirects()
        .timeout(10);
    assert_eq!(
        request,
        HttpRequest {
            method: Method::Get,
            url: "https://a.example/".to_string(),
            headers: vec![
                ("User-Agent".to_string(), "agent".to_string()),
                ("Referer".to_string(), "https://b.example/".to_string()),
            ],
            body: None,
            follow_redirects: false,
            timeout_secs: Some(10),
        }
    );
    let post = HttpRequest::post("https://a.example/".to_string(), "k=v".to_string());
    assert_eq!(post.method, Method::Post);
    assert_eq!(post.body, Some("k=v".to_string()));
    assert!(post.follow_redirects && post.headers.is_empty() && post.timeout_secs.is_none());
}

#[test]
fn redirect_request_follows_nothing() {
    let headers = vec![("Cookie".to_string(), "a=b".to_string())];
    let request = redirect_request("https://a.example/".to_string(), headers.clone());
    assert_eq!(request.method, Method::Get);
    assert_eq!(request.headers, headers);
    assert!(!request.follow_redirects);
    assert_eq!(request.body, None);
    assert_eq!(
        probe_request("https://a.example/".to_string(), "agent"),
        redirect_request("https://a.example/".to_string(), vec![("User-Agent".to_string(), "agent".to_string())])
    );
}

#[test]
fn redirect_target_needs_the_status_and_the_header() {
    let target = || Location::Target("https://b.example/".to_string());
    for status in [300u16, 301, 302, 303, 307, 308, 399] {
        assert_eq!(resolve_redirect(&response(status, target())), Ok("https://b.example/".to_string()));
    }
    for status in [200u16, 299, 400, 404, 500, 0, 65535] {
        assert_eq!(
            resolve_redirect(&response(status, target())),
            Err(ResolutionError::NoRedirectLocation)
        );
    }
    assert_eq!(
        resolve_redirect(&response(302, Location::Missing)),
        Err(ResolutionError::NoRedirectLocation)
    );
    assert_eq!(
        resolve_redirect(&response(302, Location::Unreadable)),
        Err(ResolutionError::NoRedirectLocation)
    );
    assert_eq!(resolve_redirect(&HttpEvent::Unreachable), Err(ResolutionError::NoRedirectLocation));
    assert_eq!(MAX_REDIRECT_HOPS, 5);
}
