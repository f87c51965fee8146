use media_resolver::error::ResolutionError;
use media_resolver::json::Json;
use media_resolver::models::ImgInfo;
use media_resolver::parser::kuaishou::{Kuaishou, KUAISHOU_USER_AGENT, PAGE_ACCEPT, PAGE_COOKIE};
use media_resolver::protocol::{HttpEvent, HttpRequest, Location, Method, Pending, Step};
use media_resolver::resolver::{resume, start};

fn page(body: &str) -> HttpEvent {
    HttpEvent::Response { status: 200, location: Location::Missing, body: body.to_string() }
}

fn redirect(target: &str) -> HttpEvent {
    HttpEvent::Response {
        status: 302,
        location: Location::Target(target.to_string()),
        body: String::new(),
    }
}

fn hop(url: &str) -> HttpRequest {
    HttpRequest {
        method: Method::Get,
        url: url.to_string(),
        headers: vec![("User-Agent".to_string(), KUAISHOU_USER_AGENT.to_string())],
        body: None,
        follow_redirects: false,
        timeout_secs: Some(10),
    }
}

fn page_request(url: &str) -> HttpRequest {
    HttpRequest {
        headers: vec![
            ("User-Agent".to_string(), KUAISHOU_USER_AGENT.to_string()),
            ("Accept".to_string(), PAGE_ACCEPT.to_string()),
            ("Cookie".to_string(), PAGE_COOKIE.to_string()),
        ],
        ..hop(url)
    }
}

#[test]
fn kuaishou_share_link_is_asked_where_it_leads() {
    assert_eq!(
        start("https://v.kuaishou.com/abc123 看看"),
        Step::Fetch(
            hop("https://v.kuaishou.com/abc123"),
            Pending::KuaishouRedirect { url: "https://v.kuaishou.com/abc123".to_string(), hops: 0 }
        )
    );
}

#[test]
fn redirection_is_followed_with_the_path_of_long_videos_rewritten() {
    let pending = Pending::KuaishouRedirect { url: "https://v.kuaishou.com/abc".to_string(), hops: 0 };
    assert_eq!(
        resume(pending, &redirect("https://www.kuaishou.com/fw/long-video/3x?cc=1")),
        Step::Fetch(
            hop("https://www.kuaishou.com/fw/photo/3x?cc=1"),
            Pending::KuaishouRedirect { url: "https://www.kuaishou.com/fw/photo/3x?cc=1".to_string(), hops: 1 }
        )
    );
}

#[test]
fn answer_that_redirects_nowhere_makes_the_address_the_page() {
    let pending = Pending::KuaishouRedirect { url: "https://www.kuaishou.com/fw/photo/3x".to_string(), hops: 2 };
    assert_eq!(
        resume(pending.clone(), &page("<html>")),
        Step::Fetch(page_request("https://www.kuaishou.com/fw/photo/3x"), Pending::KuaishouPage)
    );
    let no_target = HttpEvent::Response { status: 301, location: Location::Missing, body: String::new() };
    assert_eq!(
        resume(pending.clone(), &no_target),
        Step::Fetch(page_request("https://www.kuaishou.com/fw/photo/3x"), Pending::KuaishouPage)
    );
    let unreadable = HttpEvent::Response { status: 301, location: Location::Unreadable, body: String::new() };
    assert_eq!(resume(pending.clone(), &unreadable), Step::Failed(ResolutionError::NoRedirectLocation));
    assert_eq!(
        resume(pending, &HttpEvent::Unreachable),
        Step::Failed(ResolutionError::UpstreamUnreachable)
    );
}

#[test]
fn server_that_always_redirects_ends_with_too_many_redirects() {
    let mut step = start("https://v.kuaishou.com/loop");
    let mut requests = 0;
    let end = loop {
        match step {
            Step::Fetch(request, pending) => {
                requests += 1;
                assert!(requests <= 5, "more than five requests");
                assert!(!request.follow_redirects);
                step = resume(pending, &redirect(&format!("https://v.kuaishou.com/loop/{}", requests)));
            }
            other => break other,
        }
    };
    assert_eq!(end, Step::Failed(ResolutionError::TooManyRedirects));
    assert_eq!(requests, 5);
}

#[test]
fn fourth_redirection_is_still_followed() {
    let pending = Pending::KuaishouRedirect { url: "a".to_string(), hops: 3 };
    assert_eq!(
        resume(pending, &redirect("https://x.example/b")),
        Step::Fetch(
            hop("https://x.example/b"),
            Pending::KuaishouRedirect { url: "https://x.example/b".to_string(), hops: 4 }
        )
    );
    let pending = Pending::KuaishouRedirect { url: "a".to_string(), hops: 4 };
    assert_eq!(
        resume(pending, &redirect("https://x.example/b")),
        Step::Failed(ResolutionError::TooManyRedirects)
    );
    let pending = Pending::KuaishouRedirect { url: "a".to_string(), hops: 255 };
    assert_eq!(
        resume(pending, &redirect("https://x.example/b")),
        Step::Failed(ResolutionError::TooManyRedirects)
    );
}

const STATE: &str = r#"{"a": {"photo": 1}, "b": {"result": 1, "photo": {"caption": "clip", "userName": "ks", "headUrl": "https://h.example/a.jpg", "mainMvUrls": [{"url": "https://v.example/v.mp4"}, {"url": "x"}], "coverUrls": [{"url": "https://c.example/c.jpg"}]}}, "visionVideoDetail": {"photo": {"caption": "other"}}}"#;

#[test]
fn page_gives_the_record_of_the_first_node_with_photo_and_result() {
    let html = format!("<html><script>window.INIT_STATE = {}</script></html>", STATE);
    let record = Kuaishou::parse_html(&html).unwrap();
    assert_eq!(record.title, "clip");
    assert_eq!(record.author.name, "ks");
    assert_eq!(record.author.avatar, "https://h.example/a.jpg");
    assert_eq!(record.author.uid, "");
    assert_eq!(record.video_url, "https://v.example/v.mp4");
    assert_eq!(record.cover_url, "https://c.example/c.jpg");
    assert_eq!(record.platform, "kuaishou");
    assert_eq!(resume(Pending::KuaishouPage, &page(&html)), Step::Done(record));
}

#[test]
fn page_falls_back_to_the_named_detail() {
    let html = r#"<script>window.INIT_STATE = {"x": {"photo": {}}, "visionVideoDetail": {"photo": {"caption": "named"}}}</script>"#;
    assert_eq!(Kuaishou::parse_html(html).unwrap().title, "named");
}

#[test]
fn atlas_makes_a_gallery_without_video() {
    let html = r#"<script>window.INIT_STATE = {"d": {"result": 1, "photo": {"mainMvUrls": [{"url": "https://v.example/v.mp4"}], "ext_params": {"atlas": {"cdn": ["p.example", "q.example"], "list": ["a/1.jpg", 2, "a/3.jpg"]}}}}}</script>"#;
    let record = Kuaishou::parse_html(html).unwrap();
    assert_eq!(
        record.images,
        vec![
            ImgInfo { url: "https://p.example/a/1.jpg".to_string(), live_photo_url: None },
            ImgInfo { url: "https://p.example/a/3.jpg".to_string(), live_photo_url: None },
        ]
    );
    assert_eq!(record.video_url, "");
}

#[test]
fn atlas_without_host_gives_no_images() {
    let html = r#"<script>window.INIT_STATE = {"d": {"result": 1, "photo": {"mainMvUrls": [{"url": "https://v.example/v.mp4"}], "ext_params": {"atlas": {"cdn": [], "list": ["a/1.jpg"]}}}}}</script>"#;
    let record = Kuaishou::parse_html(html).unwrap();
    assert!(record.images.is_empty());
    assert_eq!(record.video_url, "https://v.example/v.mp4");
}

#[test]
fn page_without_detail_is_a_changed_format() {
    assert_eq!(
        Kuaishou::parse_html(r#"<script>window.INIT_STATE = {"a": {"photo": 1}}</script>"#),
        Err(ResolutionError::UpstreamFormatChanged)
    );
    assert_eq!(
        Kuaishou::parse_html(r#"<script>window.INIT_STATE = {"visionVideoDetail": {}}</script>"#),
        Err(ResolutionError::UpstreamFormatChanged)
    );
    assert_eq!(Kuaishou::parse_html("<html>"), Err(ResolutionError::UpstreamFormatChanged));
    assert!(matches!(
        Kuaishou::parse_html("<script>window.INIT_STATE = {</script>"),
        Err(ResolutionError::MalformedEmbeddedState(_))
    ));
    assert_eq!(
        resume(Pending::KuaishouPage, &HttpEvent::Unreachable),
        Step::Failed(ResolutionError::UpstreamUnreachable)
    );
}

#[test]
fn item_gives_its_record() {
    let photo = Json::parse(
        r#"{"caption": "c", "userName": "n", "headUrl": "h", "mainMvUrls": [{"url": "https://v.example/v.mp4"}], "coverUrls": [{"url": "cover"}], "ext_params": {"atlas": {"cdn": ["p.example"], "list": ["1.jpg"]}}}"#,
    )
    .unwrap();
    let record = Kuaishou::record_of_photo(&photo);
    assert_eq!(record.title, "c");
    assert_eq!(record.author.name, "n");
    assert_eq!(record.author.avatar, "h");
    assert_eq!(record.cover_url, "cover");
    assert_eq!(
        record.images,
        vec![ImgInfo { url: "https://p.example/1.jpg".to_string(), live_photo_url: None }]
    );
    assert_eq!(record.video_url, "");
    let empty = Kuaishou::record_of_photo(&Json::Null);
    assert_eq!(empty.title, "");
    assert_eq!(empty.platform, "kuaishou");
}
