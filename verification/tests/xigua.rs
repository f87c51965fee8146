use base64::Engine;
use media_resolver::error::ResolutionError;
use media_resolver::json::{Document, Json};
use media_resolver::models::VideoQuality;
use media_resolver::parser::utils::DEFAULT_USER_AGENT;
use media_resolver::parser::xigua::{XiGua, INFO_USER_AGENT};
use media_resolver::protocol::{HttpEvent, HttpRequest, Location, Method, Pending, Step};
use media_resolver::resolver::{resume, start};

fn page(body: &str) -> HttpEvent {
    HttpEvent::Response { status: 200, location: Location::Missing, body: body.to_string() }
}

fn redirect(target: &str) -> HttpEvent {
    HttpEvent::Response {
        status: 302,
        location: Location::Target(target.to_string()),
        body: String::new(),
    }
}

fn get(url: &str, agent: &str) -> HttpRequest {
    HttpRequest {
        method: Method::Get,
        url: url.to_string(),
        headers: vec![("User-Agent".to_string(), agent.to_string())],
        body: None,
        follow_redirects: true,
        timeout_secs: None,
    }
}

fn info_step(id: &str) -> Step {
    Step::Fetch(get(&format!("https://m.toutiao.com/i{}/info/", id), INFO_USER_AGENT), Pending::XiguaInfo)
}

fn encoded(text: &str) -> String {
    base64::engine::general_purpose::STANDARD.encode(text)
}

fn list(text: &str) -> Vec<Json> {
    match Json::parse(text).unwrap() {
        Json::Array(list) => list,
        _ => unreachable!(),
    }
}

#[test]
fn item_identifier_is_the_last_piece_of_the_path() {
    assert_eq!(XiGua::item_id("https://www.ixigua.com/6984831664548594207?logTag=abc"), "6984831664548594207");
    assert_eq!(XiGua::item_id("https://www.ixigua.com/6984831664548594207/"), "6984831664548594207");
    assert_eq!(XiGua::item_id("https://www.ixigua.com/a/b///?x=/y"), "b");
    assert_eq!(XiGua::item_id("plain"), "plain");
    assert_eq!(XiGua::item_id(""), "");
    assert_eq!(XiGua::item_id("///"), "");
    assert_eq!(XiGua::item_id("?only=query"), "");
}

#[test]
fn link_is_asked_where_it_leads() {
    let url = "https://v.ixigua.com/iAbCdE/";
    let probe = HttpRequest { follow_redirects: false, ..get(url, DEFAULT_USER_AGENT) };
    assert_eq!(start(url), Step::Fetch(probe, Pending::XiguaRedirect { url: url.to_string() }));
}

#[test]
fn item_is_named_by_the_redirection_or_by_the_link() {
    let pending = Pending::XiguaRedirect { url: "https://www.ixigua.com/123?x=1".to_string() };
    assert_eq!(
        resume(pending.clone(), &redirect("https://www.ixigua.com/6984831664548594207/?a=b")),
        info_step("6984831664548594207")
    );
    assert_eq!(resume(pending.clone(), &page("<html>")), info_step("123"));
    let no_target = HttpEvent::Response { status: 302, location: Location::Missing, body: String::new() };
    assert_eq!(resume(pending.clone(), &no_target), Step::Failed(ResolutionError::NoRedirectLocation));
    assert_eq!(
        resume(pending.clone(), &redirect("https://www.ixigua.com/")),
        Step::Failed(ResolutionError::InvalidShareInput)
    );
    assert_eq!(
        resume(pending.clone(), &redirect("https://www.ixigua.com/home")),
        Step::Failed(ResolutionError::InvalidShareInput)
    );
    assert_eq!(resume(pending.clone(), &redirect("/video/77?x=1")), info_step("77"));
    assert_eq!(resume(pending.clone(), &redirect("/")), Step::Failed(ResolutionError::InvalidShareInput));
    assert_eq!(resume(pending, &HttpEvent::Unreachable), Step::Failed(ResolutionError::UpstreamUnreachable));
}

#[test]
fn metadata_with_a_token_asks_for_the_streams() {
    let token = encoded(r#"{"GetPlayInfoToken": "Action=GetPlayInfo&Version=2019-03-15&a=b"}"#);
    let body = format!(
        r#"{{"success": true, "data": {{"title": "long video", "poster_url": "https://p.example/poster.jpg", "detail_source": "source name", "play_auth_token_v2": "{}", "media_user": {{"user_id": 4377795668, "screen_name": "channel", "avatar_url": "https://p.example/a.jpg"}}}}}}"#,
        token
    );
    let (request, record) = match resume(Pending::XiguaInfo, &page(&body)) {
        Step::Fetch(request, Pending::XiguaVod { record }) => (request, record),
        other => panic!("unexpected {:?}", other),
    };
    assert_eq!(
        request,
        get("https://vod.bytedanceapi.com/?Action=GetPlayInfo&Version=2019-03-15&a=b", "Mozilla/5.0")
    );
    assert_eq!(record.title, "long video");
    assert_eq!(record.cover_url, "https://p.example/poster.jpg");
    assert_eq!(record.author.uid, "4377795668");
    assert_eq!(record.author.name, "channel");
    assert_eq!(record.author.avatar, "https://p.example/a.jpg");
    assert_eq!(record.platform, "xigua");
    assert_eq!(record.video_url, "");
}

#[test]
fn metadata_without_a_usable_token_gives_a_record_without_video() {
    let bodies = [
        r#"{"success": true, "data": {"title": "t", "detail_source": "src"}}"#.to_string(),
        r#"{"success": true, "data": {"title": "t", "detail_source": "src", "play_auth_token_v2": "***"}}"#.to_string(),
        format!(r#"{{"success": true, "data": {{"title": "t", "detail_source": "src", "play_auth_token_v2": "{}"}}}}"#, encoded("not json")),
        format!(r#"{{"success": true, "data": {{"title": "t", "detail_source": "src", "play_auth_token_v2": "{}"}}}}"#, encoded("{\"Other\": 1}")),
        format!(r#"{{"success": true, "data": {{"title": "t", "detail_source": "src", "play_auth_token_v2": "{}"}}}}"#, base64::engine::general_purpose::STANDARD.encode([0xffu8, 0xfe])),
    ];
    for body in bodies {
        match resume(Pending::XiguaInfo, &page(&body)) {
            Step::Done(record) => {
                assert_eq!(record.title, "t");
                assert_eq!(record.author.name, "src");
                assert_eq!(record.author.uid, "");
                assert_eq!(record.video_url, "");
            }
            other => panic!("unexpected {:?} for {}", other, body),
        }
    }
}

#[test]
fn publisher_is_written_as_the_metadata_has_it() {
    let body = r#"{"success": true, "data": {"detail_source": "src", "media_user": {"user_id": "text id"}}}"#;
    match resume(Pending::XiguaInfo, &page(body)) {
        Step::Done(record) => {
            assert_eq!(record.author.uid, "text id");
            assert_eq!(record.author.name, "src");
        }
        other => panic!("unexpected {:?}", other),
    }
    let body = r#"{"success": true, "data": {"detail_source": "src", "media_user": {"screen_name": "n"}}}"#;
    match resume(Pending::XiguaInfo, &page(body)) {
        Step::Done(record) => {
            assert_eq!(record.author.uid, "");
            assert_eq!(record.author.name, "n");
        }
        other => panic!("unexpected {:?}", other),
    }
}

#[test]
fn metadata_that_reports_failure_means_the_content_is_not_there() {
    for body in [r#"{"success": false}"#, r#"{"success": "true"}"#, "{}", "[]"] {
        assert_eq!(
            resume(Pending::XiguaInfo, &page(body)),
            Step::Failed(ResolutionError::ContentNotFound),
            "{}",
            body
        );
    }
    assert_eq!(
        resume(Pending::XiguaInfo, &page(r#"{"success": true}"#)),
        Step::Failed(ResolutionError::UpstreamFormatChanged)
    );
    assert_eq!(
        resume(Pending::XiguaInfo, &page("<html>")),
        Step::Failed(ResolutionError::UpstreamFormatChanged)
    );
    assert_eq!(
        resume(Pending::XiguaInfo, &HttpEvent::Unreachable),
        Step::Failed(ResolutionError::UpstreamUnreachable)
    );
}

#[test]
fn highest_stream_is_the_primary_video_and_ties_go_to_the_first() {
    let streams = list(r#"[
        {"Definition": "360p", "Height": 360, "MainPlayUrl": "https://v.example/360"},
        {"Definition": "1080p", "Height": 1080, "MainPlayUrl": "https://v.example/1080a"},
        {"Definition": "none", "Height": 4000},
        {"Definition": "1080p+", "Height": 1080, "MainPlayUrl": "https://v.example/1080b"},
        {"Definition": "720p", "Height": "720", "MainPlayUrl": "https://v.example/720"}
    ]"#);
    assert_eq!(XiGua::best_of(&streams), 2);
    let two = list(r#"[{"Height": 360}, {"Height": 1080}]"#);
    assert_eq!(XiGua::best_of(&two), 1);
    let tie = list(r#"[{"Height": 5}, {"Height": 5}, {"Height": 1}]"#);
    assert_eq!(XiGua::best_of(&tie), 0);
    let negative = list(r#"[{"Height": -5}, {}]"#);
    assert_eq!(XiGua::best_of(&negative), 1);
    let qualities = XiGua::qualities_of(&streams);
    let names: Vec<&str> = qualities.iter().map(|q| q.quality.as_str()).collect();
    assert_eq!(names, vec!["360p", "1080p", "1080p+", "720p"]);
}

#[test]
fn stream_api_fills_the_record() {
    let before = match resume(
        Pending::XiguaInfo,
        &page(r#"{"success": true, "data": {"title": "t", "detail_source": "s"}}"#),
    ) {
        Step::Done(record) => record,
        other => panic!("unexpected {:?}", other),
    };
    let body = r#"{"Result": {"Data": {"PlayInfoList": [
        {"Definition": "480p", "Height": 480, "MainPlayUrl": "https://v.example/480"},
        {"Definition": "720p", "Height": 720, "MainPlayUrl": "https://v.example/720"},
        {"Definition": "bad", "Height": 100, "MainPlayUrl": ""}
    ]}}}"#;
    match resume(Pending::XiguaVod { record: before.clone() }, &page(body)) {
        Step::Done(record) => {
            assert_eq!(record.video_url, "https://v.example/720");
            assert_eq!(
                record.video_qualities,
                vec![
                    VideoQuality { quality: "480p".to_string(), video_url: "https://v.example/480".to_string(), size: None },
                    VideoQuality { quality: "720p".to_string(), video_url: "https://v.example/720".to_string(), size: None },
                ]
            );
            assert_eq!(record.title, "t");
        }
        other => panic!("unexpected {:?}", other),
    }
    for event in [page("{}"), page("oops"), HttpEvent::Unreachable, page(r#"{"Result": {"Data": {"PlayInfoList": {}}}}"#)] {
        assert_eq!(
            resume(Pending::XiguaVod { record: before.clone() }, &event),
            Step::Done(before.clone())
        );
    }
    match resume(Pending::XiguaVod { record: before.clone() }, &page(r#"{"Result": {"Data": {"PlayInfoList": []}}}"#)) {
        Step::Done(record) => assert_eq!(record, before),
        other => panic!("unexpected {:?}", other),
    }
}

#[test]
fn metadata_of_an_item_gives_the_record_without_a_stream() {
    let document = Document::read(
        r#"{"success": true, "data": {"title": "t", "poster_url": "p", "detail_source": "s", "media_user": {"user_id": 12, "avatar_url": "a"}}}"#,
    )
    .unwrap();
    let data = media_resolver::json::get(Some(document.root()), "data").unwrap();
    let record = XiGua::record_of_info(&document, data);
    assert_eq!(record.title, "t");
    assert_eq!(record.cover_url, "p");
    assert_eq!(record.author.uid, "12");
    assert_eq!(record.author.name, "s");
    assert_eq!(record.author.avatar, "a");
    assert_eq!(record.video_url, "");
    assert!(record.video_qualities.is_empty());
    assert_eq!(record.platform, "xigua");
}
