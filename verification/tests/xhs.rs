use media_resolver::error::ResolutionError;
use media_resolver::models::ImgInfo;
use media_resolver::parser::xhs::{Xiaohongshu, XHS_COOKIE, XHS_USER_AGENT};
use media_resolver::protocol::{HttpEvent, HttpRequest, Location, Method, Pending, Step};
use media_resolver::resolver::{resume, start};

fn page(body: &str) -> HttpEvent {
    HttpEvent::Response { status: 200, location: Location::Missing, body: body.to_string() }
}

fn request(url: &str) -> HttpRequest {
    HttpRequest {
        method: Method::Get,
        url: url.to_string(),
        headers: vec![
            ("User-Agent".to_string(), XHS_USER_AGENT.to_string()),
            ("Cookie".to_string(), XHS_COOKIE.to_string()),
        ],
        body: None,
        follow_redirects: true,
        timeout_secs: None,
    }
}

fn html(state: &str) -> String {
    format!(
        "<html><script>window.__INITIAL_STATE__={}</script></html>",
        state.replace('\n', " ")
    )
}

#[test]
fn page_of_the_note_is_asked_for() {
    assert_eq!(
        start("62 某某发布了一篇小红书笔记 http://xhslink.com/a/AbCdEf，复制本条信息"),
        Step::Fetch(request("http://xhslink.com/a/AbCdEf"), Pending::XhsPage)
    );
    assert_eq!(
        Xiaohongshu::parse_share_url("anything"),
        Step::Fetch(request("anything"), Pending::XhsPage)
    );
}

#[test]
fn gallery_note_in_a_map_by_identifier() {
    let state = r#"{"global": undefined, "note": {"noteDetailMap": {"65a": {"note": {
        "title": "", "desc": "0123456789012345678901234567890123456789",
        "type": "normal",
        "user": {"userId": "u1", "avatar": "http://a.example/av.jpg"},
        "imageList": [{"urlDefault": "http://i.example/1.jpg"}, {"urlPre": "x"}, {"urlDefault": "https://i.example/3.jpg"}],
        "video": {"media": {"stream": {"h264": [{"masterUrl": "http://v.example/v.mp4"}]}}}
    }}, "zzz": {"note": {"title": "second"}}}}}"#;
    let record = Xiaohongshu::parse_html(&html(state)).unwrap();
    assert_eq!(record.title, "012345678901234567890123456789");
    assert_eq!(record.author.uid, "u1");
    assert_eq!(record.author.name, "Unknown");
    assert_eq!(record.author.avatar, "http://a.example/av.jpg");
    assert_eq!(record.cover_url, "https://i.example/1.jpg");
    assert_eq!(
        record.images,
        vec![
            ImgInfo { url: "https://i.example/1.jpg".to_string(), live_photo_url: None },
            ImgInfo { url: "https://i.example/3.jpg".to_string(), live_photo_url: None },
        ]
    );
    assert_eq!(record.video_url, "");
    assert_eq!(record.platform, "xhs");
    assert_eq!(resume(Pending::XhsPage, &page(&html(state))), Step::Done(record));
}

#[test]
fn video_note_in_the_direct_shape() {
    let state = r#"{"note": {"note": {
        "title": "a video", "type": "video",
        "user": {"userId": "u2", "nickname": "nick"},
        "imageList": [{"urlDefault": "http://i.example/cover.jpg"}],
        "video": {"media": {"stream": {"h264": [{"masterUrl": "http://v.example/master.mp4"}, {"masterUrl": "x"}]}}}
    }, "noteDetailMap": {"x": {"note": {"title": "not this"}}}}}"#;
    let record = Xiaohongshu::parse_html(&html(state)).unwrap();
    assert_eq!(record.title, "a video");
    assert_eq!(record.author.name, "nick");
    assert_eq!(record.video_url, "https://v.example/master.mp4");
    assert_eq!(record.cover_url, "https://i.example/cover.jpg");
    assert!(record.images.is_empty());
}

#[test]
fn state_that_spans_lines_is_not_found() {
    let page = "<script>window.__INITIAL_STATE__={\n\"note\": {}}</script>";
    assert_eq!(Xiaohongshu::parse_html(page), Err(ResolutionError::UpstreamFormatChanged));
}

#[test]
fn state_without_a_note_is_a_changed_format() {
    for state in [
        "{}",
        r#"{"note": {}}"#,
        r#"{"note": {"noteDetailMap": {}}}"#,
        r#"{"note": {"noteDetailMap": []}}"#,
        r#"{"note": {"noteDetailMap": {"a": {}}}}"#,
        r#"{"note": {"note": {"title": "no user"}}}"#,
    ] {
        assert_eq!(
            Xiaohongshu::parse_html(&html(state)),
            Err(ResolutionError::UpstreamFormatChanged),
            "{}",
            state
        );
    }
    assert_eq!(
        Xiaohongshu::parse_html("<html></html>"),
        Err(ResolutionError::UpstreamFormatChanged)
    );
    assert!(matches!(
        Xiaohongshu::parse_html(&html("{broken")),
        Err(ResolutionError::MalformedEmbeddedState(_))
    ));
    assert_eq!(
        resume(Pending::XhsPage, &HttpEvent::Unreachable),
        Step::Failed(ResolutionError::UpstreamUnreachable)
    );
}

#[test]
fn profile_page_lists_the_notes_of_a_user() {
    assert_eq!(
        Xiaohongshu::fetch_posts("5ff0e9"),
        request("https://www.xiaohongshu.com/user/profile/5ff0e9")
    );
    let state = r#"{"user": {"notes": [
        {"noteId": "n1", "displayTitle": "one", "type": "video", "cover": {"urlDefault": "http://c.example/1.jpg", "url": "no"}},
        {"noteId": "", "displayTitle": "skipped"},
        {"noteId": "n2", "cover": {"url": "http://c.example/2.jpg"}}
    ], "feed": [{"noteId": "f1"}]}}"#;
    let previews = Xiaohongshu::parse_posts(&html(state)).unwrap();
    assert_eq!(previews.len(), 2);
    assert_eq!(previews[0].id, "n1");
    assert_eq!(previews[0].title, "one");
    assert_eq!(previews[0].cover_url, "https://c.example/1.jpg");
    assert!(previews[0].is_video);
    assert_eq!(previews[1].id, "n2");
    assert_eq!(previews[1].cover_url, "https://c.example/2.jpg");
    assert!(!previews[1].is_video);
    assert!(previews.iter().all(|p| p.platform == "xhs" && p.video_url.is_empty()));
    let feed = r#"{"user": {"notes": {}, "feed": [{"noteId": "f1"}]}}"#;
    assert_eq!(Xiaohongshu::parse_posts(&html(feed)).unwrap().len(), 1);
    assert_eq!(Xiaohongshu::parse_posts(&html("{}")).unwrap(), vec![]);
    assert_eq!(
        Xiaohongshu::parse_posts("<html>"),
        Err(ResolutionError::UpstreamFormatChanged)
    );
}
