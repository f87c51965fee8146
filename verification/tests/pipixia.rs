use media_resolver::error::ResolutionError;
use media_resolver::json::Json;
use media_resolver::models::ImgInfo;
use media_resolver::parser::pipixia::PiPiXia;
use media_resolver::parser::utils::DEFAULT_USER_AGENT;
use media_resolver::protocol::{HttpEvent, HttpRequest, Location, Method, Pending, Step};
use media_resolver::resolver::{resume, start};

fn page(body: &str) -> HttpEvent {
    HttpEvent::Response { status: 200, location: Location::Missing, body: body.to_string() }
}

fn redirect(target: &str) -> HttpEvent {
    HttpEvent::Response {
        status: 302,
        location: Location::Target(target.to_string()),
        body: String::new(),
    }
}

fn request(url: &str, follow: bool) -> HttpRequest {
    HttpRequest {
        method: Method::Get,
        url: url.to_string(),
        headers: vec![("User-Agent".to_string(), DEFAULT_USER_AGENT.to_string())],
        body: None,
        follow_redirects: follow,
        timeout_secs: None,
    }
}

fn api_url(id: &str) -> String {
    format!(
        "https://api.pipix.com/bds/cell/cell_comment/?offset=0&cell_type=1&api_version=1&cell_id={}&ac=wifi&channel=huawei_1319_64&aid=1319&app_name=super",
        id
    )
}

#[test]
fn pipixia_share_link_is_asked_where_it_leads() {
    assert_eq!(
        start("皮皮虾 https://h5.pipix.com/s/JAtW8Yg/ 来看"),
        Step::Fetch(request("https://h5.pipix.com/s/JAtW8Yg/", false), Pending::PipixiaRedirect)
    );
}

#[test]
fn redirection_names_the_item() {
    assert_eq!(
        resume(Pending::PipixiaRedirect, &redirect("https://h5.pipix.com/item/6903591112358912263?app_id=1319")),
        Step::Fetch(request(&api_url("6903591112358912263"), true), Pending::PipixiaItem)
    );
    assert_eq!(
        resume(Pending::PipixiaRedirect, &redirect("https://h5.pipix.com/ppx/item/42/")),
        Step::Fetch(request(&api_url("42"), true), Pending::PipixiaItem)
    );
}

#[test]
fn item_page_without_identifier_names_no_item() {
    assert_eq!(
        resume(Pending::PipixiaRedirect, &redirect("https://h5.pipix.com/item/")),
        Step::Failed(ResolutionError::InvalidShareInput)
    );
    assert_eq!(
        resume(Pending::PipixiaRedirect, &redirect("https://h5.pipix.com/ppx/item")),
        Step::Failed(ResolutionError::InvalidShareInput)
    );
}

#[test]
fn item_identifier_follows_the_prefix_of_item_pages() {
    let id = |path: &str| PiPiXia::item_id(path).into_iter().collect::<String>();
    assert_eq!(id("/item/6903591112358912263"), "6903591112358912263");
    assert_eq!(id("/ppx/item/42/"), "42");
    assert_eq!(id("/s/JAtW8Yg/"), "s/JAtW8Yg");
    assert_eq!(id("/item/"), "");
    assert_eq!(id("/ppx/item"), "");
    assert_eq!(id("/"), "");
    assert_eq!(id(""), "");
    assert_eq!(id("/items/5"), "items/5");
}

#[test]
fn redirection_without_item_fails() {
    assert_eq!(
        resume(Pending::PipixiaRedirect, &redirect("https://h5.pipix.com/")),
        Step::Failed(ResolutionError::InvalidShareInput)
    );
    assert_eq!(
        resume(Pending::PipixiaRedirect, &redirect("/relative")),
        Step::Failed(ResolutionError::InvalidShareInput)
    );
    assert_eq!(
        resume(Pending::PipixiaRedirect, &page("")),
        Step::Failed(ResolutionError::NoRedirectLocation)
    );
    assert_eq!(
        resume(Pending::PipixiaRedirect, &HttpEvent::Unreachable),
        Step::Failed(ResolutionError::UpstreamUnreachable)
    );
}

const ITEM: &str = r#"{
    "content": "a clip",
    "author": {"id": "77", "name": "author", "avatar": {"download_list": [{"url": "https://a.example/av.jpg"}]}},
    "cover": {"url_list": [{"url": "https://a.example/cover.jpg"}]},
    "video": {"video_high": {"url_list": [{"url": "https://v.example/marked.mp4"}]}},
    "comments": [
        {"item": {"author": {"id": "12"}, "video": {"video_high": {"url_list": [{"url": "https://v.example/other.mp4"}]}}}},
        {"item": {"author": {"id": "77"}, "video": {"video_high": {"url_list": [{"url": ""}]}}}},
        {"item": {"author": {"id": "77"}}},
        {"item": {"author": {"id": "77"}, "video": {"video_high": {"url_list": [{"url": "https://v.example/clean.mp4"}]}}}},
        {"item": {"author": {"id": "77"}, "video": {"video_high": {"url_list": [{"url": "https://v.example/later.mp4"}]}}}}
    ]
}"#;

#[test]
fn video_of_the_author_in_the_comments_is_preferred() {
    let record = PiPiXia::record_of_item(&Json::parse(ITEM).unwrap());
    assert_eq!(record.video_url, "https://v.example/clean.mp4");
    assert_eq!(record.title, "a clip");
    assert_eq!(record.author.uid, "77");
    assert_eq!(record.author.name, "author");
    assert_eq!(record.author.avatar, "https://a.example/av.jpg");
    assert_eq!(record.cover_url, "https://a.example/cover.jpg");
    assert_eq!(record.platform, "pipixia");
}

#[test]
fn own_video_is_taken_where_no_comment_has_one() {
    let item = Json::parse(r#"{"author": {"id": "1"}, "video": {"video_high": {"url_list": [{"url": "https://v.example/own.mp4"}]}}, "comments": [{"item": {"author": {"id": "2"}, "video": {"video_high": {"url_list": [{"url": "x"}]}}}}]}"#).unwrap();
    assert_eq!(PiPiXia::record_of_item(&item).video_url, "https://v.example/own.mp4");
}

#[test]
fn item_with_images_has_no_video() {
    let item = Json::parse(r#"{
        "note": {"multi_image": [{"url_list": [{"url": "https://p.example/1.jpg"}]}, {"url_list": []}, {"url_list": [{"url": ""}]}, {"url_list": {"0": {"url": "https://p.example/keyed.jpg"}}}]},
        "video": {"video_high": {"url_list": [{"url": "https://v.example/own.mp4"}]}}
    }"#).unwrap();
    let record = PiPiXia::record_of_item(&item);
    assert_eq!(
        record.images,
        vec![
            ImgInfo { url: "https://p.example/1.jpg".to_string(), live_photo_url: None },
            ImgInfo { url: "https://p.example/keyed.jpg".to_string(), live_photo_url: None },
        ]
    );
    assert_eq!(record.video_url, "");
}

#[test]
fn item_api_gives_the_record() {
    let body = format!(r#"{{"data": {{"cell_comments": [{{"comment_info": {{"item": {}}}}}]}}}}"#, ITEM);
    match resume(Pending::PipixiaItem, &page(&body)) {
        Step::Done(record) => assert_eq!(record, PiPiXia::record_of_item(&Json::parse(ITEM).unwrap())),
        other => panic!("unexpected {:?}", other),
    }
}

#[test]
fn item_api_without_item_is_a_changed_format() {
    assert_eq!(
        resume(Pending::PipixiaItem, &page(r#"{"data": {"cell_comments": []}}"#)),
        Step::Failed(ResolutionError::UpstreamFormatChanged)
    );
    assert_eq!(
        resume(Pending::PipixiaItem, &page("oops")),
        Step::Failed(ResolutionError::UpstreamFormatChanged)
    );
    assert_eq!(
        resume(Pending::PipixiaItem, &HttpEvent::Unreachable),
        Step::Failed(ResolutionError::UpstreamUnreachable)
    );
}
