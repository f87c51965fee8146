use media_resolver::error::ResolutionError;
use media_resolver::json::Json;
use media_resolver::models::ImgInfo;
use media_resolver::parser::utils::DEFAULT_USER_AGENT;
use media_resolver::parser::weibo::{
    Weibo, DESKTOP_USER_AGENT, MOBILE_USER_AGENT, VIDEO_COOKIE,
};
use media_resolver::protocol::{HttpEvent, HttpRequest, Location, Method, Pending, Step};
use media_resolver::resolver::{resume, start};

fn page(body: &str) -> HttpEvent {
    HttpEvent::Response { status: 200, location: Location::Missing, body: body.to_string() }
}

fn header(name: &str, value: &str) -> (String, String) {
    (name.to_string(), value.to_string())
}

fn video_request(id: &str) -> HttpRequest {
    HttpRequest {
        method: Method::Post,
        url: format!("https://h5.video.weibo.com/api/component?page=/show/{}", id),
        headers: vec![
            header("Cookie", VIDEO_COOKIE),
            header("Referer", &format!("https://h5.video.weibo.com/show/{}", id)),
            header("Content-Type", "application/x-www-form-urlencoded"),
            header("User-Agent", DEFAULT_USER_AGENT),
        ],
        body: Some(format!(r#"data={{"Component_Play_Playinfo":{{"oid":"{}"}}}}"#, id)),
        follow_redirects: true,
        timeout_secs: None,
    }
}

fn by_pattern(url: &str) -> String {
    let re = regex::Regex::new(r"https?://[^/]+\.sinaimg\.cn/(?:mw\d+|orj\d+|large|original|bmiddle|thumbnail|crop[^/]*)/(.+)").unwrap();
    if let Some(caps) = re.captures(url) {
        if let Some(image_id) = caps.get(1) {
            return format!("https://ww1.sinaimg.cn/large/{}", image_id.as_str());
        }
    }
    url.replace("wx1.sinaimg.cn", "ww1.sinaimg.cn")
        .replace("wx2.sinaimg.cn", "ww1.sinaimg.cn")
        .replace("wx3.sinaimg.cn", "ww1.sinaimg.cn")
        .replace("wx4.sinaimg.cn", "ww1.sinaimg.cn")
        .replace("tvax1.sinaimg.cn", "ww1.sinaimg.cn")
        .replace("tvax2.sinaimg.cn", "ww1.sinaimg.cn")
        .replace("tva1.sinaimg.cn", "ww1.sinaimg.cn")
}

#[test]
fn image_address_is_moved_to_the_open_host() {
    assert_eq!(
        Weibo::convert_image_url("https://wx3.sinaimg.cn/mw2000/006abc.jpg"),
        "https://ww1.sinaimg.cn/large/006abc.jpg"
    );
    assert_eq!(
        Weibo::convert_image_url("http://tvax1.sinaimg.cn/crop.0.0.100.100/x/y.jpg?KID=imgbed"),
        "https://ww1.sinaimg.cn/large/x/y.jpg?KID=imgbed"
    );
    assert_eq!(
        Weibo::convert_image_url("https://wx1.sinaimg.cn/unknown/a.jpg"),
        "https://ww1.sinaimg.cn/unknown/a.jpg"
    );
    assert_eq!(Weibo::convert_image_url(""), "");
}

#[test]
fn image_conversion_agrees_with_the_pattern() {
    let samples = [
        "https://wx3.sinaimg.cn/mw2000/006abc.jpg",
        "https://wx3.sinaimg.cn/mw/006abc.jpg",
        "https://wx3.sinaimg.cn/mw20x/006abc.jpg",
        "https://wx3.sinaimg.cn/orj360/a",
        "https://wx3.sinaimg.cn/orj/a",
        "https://wx3.sinaimg.cn/large/",
        "https://wx3.sinaimg.cn/large/a\nb",
        "https://wx3.sinaimg.cn/original/a/b/c",
        "https://wx3.sinaimg.cn/bmiddle/a",
        "https://wx3.sinaimg.cn/thumbnail/a",
        "https://wx3.sinaimg.cn/thumbnails/a",
        "https://wx3.sinaimg.cn/crop/a",
        "https://wx3.sinaimg.cn/cropped.1/a",
        "https://.sinaimg.cn/large/a",
        "https://x.sinaimg.cn.evil/large/a",
        "https://sinaimg.cn/large/a",
        "see http://a/b https://tva1.sinaimg.cn/large/z.png end",
        "ftp://wx2.sinaimg.cn/large/a wx4.sinaimg.cn tvax2.sinaimg.cn",
        "https://wx1.sinaimg.cn",
        "https://wx1.sinaimg.cn/",
        "httpss://wx1.sinaimg.cn/large/a",
        "https://https://wx1.sinaimg.cn/large/a",
    ];
    for url in samples {
        assert_eq!(Weibo::convert_image_url(url), by_pattern(url), "{:?}", url);
    }
}

#[test]
fn text_is_cleaned_of_markup() {
    assert_eq!(
        Weibo::clean_text("  hello <a href=\"https://x\">#topic#</a> <br/>world \n"),
        "hello #topic# world"
    );
    assert_eq!(Weibo::clean_text("<p></p>"), "");
}

#[test]
fn link_with_fid_asks_the_video_api() {
    let step = start("https://video.weibo.com/show?fid=4797699866951785&x=1");
    assert_eq!(step, Step::Fetch(video_request("4797699866951785"), Pending::WeiboVideo));
}

#[test]
fn link_with_tv_show_path_asks_the_video_api() {
    let step = start("watch https://weibo.com/tv/show/4797699866951785?from=old_pc_videoshow now");
    assert_eq!(step, Step::Fetch(video_request("4797699866951785"), Pending::WeiboVideo));
}

#[test]
fn link_in_share_text_ends_before_a_colon() {
    let step = start("https://video.weibo.com/show?fid=1034:4797699866951785");
    assert_eq!(step, Step::Fetch(video_request("1034"), Pending::WeiboVideo));
}

#[test]
fn link_of_a_post_asks_the_mobile_api() {
    let step = start("https://weibo.com/2656274875/Nxyz123AB");
    let request = HttpRequest {
        method: Method::Get,
        url: "https://m.weibo.cn/statuses/show?id=Nxyz123AB".to_string(),
        headers: vec![
            header("User-Agent", MOBILE_USER_AGENT),
            header("Referer", "https://m.weibo.cn/"),
            header("Content-Type", "application/json;charset=UTF-8"),
            header("X-Requested-With", "XMLHttpRequest"),
        ],
        body: None,
        follow_redirects: true,
        timeout_secs: None,
    };
    assert_eq!(
        step,
        Step::Fetch(
            request,
            Pending::WeiboStatus { original_url: "https://weibo.com/2656274875/Nxyz123AB".to_string() }
        )
    );
}

#[test]
fn link_with_a_short_path_is_refused() {
    assert_eq!(start("https://weibo.com/onlyone"), Step::Failed(ResolutionError::InvalidShareInput));
    assert_eq!(
        Weibo::parse_share_url("https://weibo.com/a?show?fid="),
        Step::Failed(ResolutionError::InvalidShareInput)
    );
}

#[test]
fn video_api_gives_the_record() {
    let body = r#"{"data": {"Component_Play_Playinfo": {
        "title": "a video", "author": "someone", "avatar": "//tvax1.sinaimg.cn/a.jpg",
        "cover_image": "//wx1.sinaimg.cn/c.jpg",
        "urls": {"高清 1080P": "//f.video.weibocdn.com/1080.mp4", "高清 720P": "//f.video.weibocdn.com/720.mp4"}
    }}}"#;
    match resume(Pending::WeiboVideo, &page(body)) {
        Step::Done(record) => {
            assert_eq!(record.title, "a video");
            assert_eq!(record.author.name, "someone");
            assert_eq!(record.author.uid, "");
            assert_eq!(record.author.avatar, "https://tvax1.sinaimg.cn/a.jpg");
            assert_eq!(record.cover_url, "https://wx1.sinaimg.cn/c.jpg");
            assert_eq!(record.video_url, "https://f.video.weibocdn.com/1080.mp4");
            assert_eq!(record.platform, "weibo");
            assert!(record.images.is_empty() && record.video_qualities.is_empty());
        }
        other => panic!("unexpected {:?}", other),
    }
}

#[test]
fn video_api_without_play_info_is_a_changed_format() {
    assert_eq!(
        resume(Pending::WeiboVideo, &page(r#"{"data": {}}"#)),
        Step::Failed(ResolutionError::UpstreamFormatChanged)
    );
    assert_eq!(
        resume(Pending::WeiboVideo, &page("<html>")),
        Step::Failed(ResolutionError::UpstreamFormatChanged)
    );
    assert_eq!(
        resume(Pending::WeiboVideo, &HttpEvent::Unreachable),
        Step::Failed(ResolutionError::UpstreamUnreachable)
    );
}

#[test]
fn mobile_api_data_gives_a_gallery() {
    let data = Json::parse(r#"{
        "text": "<span>pictures</span> ",
        "user": {"screen_name": "poster", "avatar_large": "https://tvax2.sinaimg.cn/crop.0.0.1.1/av.jpg"},
        "pic_infos": {
            "b": {"large": {"url": "https://wx2.sinaimg.cn/large/b.jpg"}},
            "a": {"largest": {"url": "https://wx1.sinaimg.cn/mw2000/a.jpg"}, "large": {"url": "no"}},
            "c": {"thumbnail": {"url": "x"}},
            "d": {"bmiddle": {"url": "https://other.example/d.jpg"}}
        },
        "pics": [{"url": "ignored"}]
    }"#).unwrap();
    let record = Weibo::parse_mobile_api_data(&data);
    assert_eq!(record.title, "pictures");
    assert_eq!(record.author.name, "poster");
    assert_eq!(record.author.avatar, "https://ww1.sinaimg.cn/large/av.jpg");
    assert_eq!(
        record.images,
        vec![
            ImgInfo { url: "https://ww1.sinaimg.cn/large/a.jpg".to_string(), live_photo_url: None },
            ImgInfo { url: "https://ww1.sinaimg.cn/large/b.jpg".to_string(), live_photo_url: None },
            ImgInfo { url: "https://other.example/d.jpg".to_string(), live_photo_url: None },
        ]
    );
    assert_eq!(record.video_url, "");
}

#[test]
fn mobile_api_data_falls_back_to_pics() {
    let data = Json::parse(r#"{"pics": [
        {"large": {"url": "https://wx4.sinaimg.cn/orj360/1.jpg"}, "url": "no"},
        {"url": "https://wx4.sinaimg.cn/other/2.jpg"},
        {"bmiddle": {}}
    ]}"#).unwrap();
    let record = Weibo::parse_mobile_api_data(&data);
    let urls: Vec<&str> = record.images.iter().map(|i| i.url.as_str()).collect();
    assert_eq!(urls, vec!["https://ww1.sinaimg.cn/large/1.jpg", "https://ww1.sinaimg.cn/other/2.jpg"]);
}

#[test]
fn mobile_api_data_gives_the_best_stream_that_is_there() {
    let data = Json::parse(r#"{"page_info": {
        "media_info": {"stream_url": "https://s.example/sd.mp4", "mp4_hd_url": "https://s.example/hd.mp4"},
        "page_pic": {"url": "https://wx1.sinaimg.cn/large/cover.jpg"}
    }}"#).unwrap();
    let record = Weibo::parse_mobile_api_data(&data);
    assert_eq!(record.video_url, "https://s.example/sd.mp4");
    assert_eq!(record.cover_url, "https://ww1.sinaimg.cn/large/cover.jpg");
    let data = Json::parse(r#"{"page_info": {"media_info": {"stream_url_hd": 5, "stream_url": "x"}, "page_pic": "https://wx1.sinaimg.cn/a/b.jpg"}}"#).unwrap();
    let record = Weibo::parse_mobile_api_data(&data);
    assert_eq!(record.video_url, "");
    assert_eq!(record.cover_url, "https://ww1.sinaimg.cn/a/b.jpg");
}

#[test]
fn post_that_links_to_a_video_page_asks_the_video_api() {
    let body = r#"{"data": {"text": "look <a href=\"https://video.weibo.com/show?fid=1034:5258349667876926\">video</a>", "user": {"screen_name": "p"}}}"#;
    let pending = Pending::WeiboStatus { original_url: "https://weibo.com/1/abc".to_string() };
    let step = resume(pending, &page(body));
    let (request, record) = match step {
        Step::Fetch(request, Pending::WeiboPostVideo { record }) => (request, record),
        other => panic!("unexpected {:?}", other),
    };
    assert_eq!(request, video_request("1034:5258349667876926"));
    assert_eq!(record.video_url, "https://video.weibo.com/show?fid=1034:5258349667876926");
    assert_eq!(record.title, "look video");
    let api = r#"{"data": {"Component_Play_Playinfo": {"cover_image": "//c.example/c.jpg", "urls": {"a": "//v.example/v.mp4"}}}}"#;
    match resume(Pending::WeiboPostVideo { record: record.clone() }, &page(api)) {
        Step::Done(done) => {
            assert_eq!(done.video_url, "https://v.example/v.mp4");
            assert_eq!(done.cover_url, "https://c.example/c.jpg");
            assert_eq!(done.title, "look video");
            assert_eq!(done.author.name, "p");
        }
        other => panic!("unexpected {:?}", other),
    }
    match resume(Pending::WeiboPostVideo { record: record.clone() }, &HttpEvent::Unreachable) {
        Step::Done(done) => assert_eq!(done, record),
        other => panic!("unexpected {:?}", other),
    }
}

#[test]
fn mobile_api_data_with_stream_and_picture_is_a_gallery() {
    let data = Json::parse(
        r#"{"page_info":{"media_info":{"stream_url":"https://v/x.mp4"}},"pics":[{"url":"https://i/1.jpg"}]}"#,
    )
    .unwrap();
    let record = Weibo::parse_mobile_api_data(&data);
    assert_eq!(
        record.images,
        vec![ImgInfo { url: "https://i/1.jpg".to_string(), live_photo_url: None }]
    );
    assert_eq!(record.video_url, "");
    assert!(record.video_qualities.is_empty());
    let video_only = Json::parse(r#"{"page_info":{"media_info":{"stream_url":"https://v/x.mp4"}}}"#).unwrap();
    assert_eq!(Weibo::parse_mobile_api_data(&video_only).video_url, "https://v/x.mp4");
}

#[test]
fn component_data_gives_the_record_of_a_video() {
    let data = Json::parse(
        r#"{"title": "t", "author": "a", "avatar": "//h/a.jpg", "cover_image": "//h/c.jpg", "urls": {"b": "//h/b.mp4", "a": "//h/a.mp4"}}"#,
    )
    .unwrap();
    let record = Weibo::record_of_component(&data);
    assert_eq!(record.title, "t");
    assert_eq!(record.author.name, "a");
    assert_eq!(record.author.avatar, "https://h/a.jpg");
    assert_eq!(record.cover_url, "https://h/c.jpg");
    assert_eq!(record.video_url, "https://h/a.mp4");
    assert!(record.images.is_empty());
    let bare = Weibo::record_of_component(&Json::parse("{}").unwrap());
    assert_eq!(bare.video_url, "");
    assert_eq!(bare.cover_url, "");
    assert_eq!(bare.platform, "weibo");
}

#[test]
fn post_with_pictures_and_video_is_a_gallery() {
    let body = r#"{"data": {"page_info": {"media_info": {"stream_url": "https://s.example/v.mp4"}}, "pics": [{"url": "https://p.example/1.jpg"}]}}"#;
    let pending = Pending::WeiboStatus { original_url: "https://weibo.com/1/abc".to_string() };
    match resume(pending, &page(body)) {
        Step::Done(record) => {
            assert_eq!(record.images.len(), 1);
            assert_eq!(record.video_url, "");
        }
        other => panic!("unexpected {:?}", other),
    }
}

#[test]
fn post_that_the_mobile_api_does_not_know_asks_the_desktop_page() {
    let expected = Step::Fetch(
        HttpRequest {
            method: Method::Get,
            url: "https://weibo.com/1/abc".to_string(),
            headers: vec![header("User-Agent", DESKTOP_USER_AGENT)],
            body: None,
            follow_redirects: true,
            timeout_secs: None,
        },
        Pending::WeiboDesktop,
    );
    let pending = Pending::WeiboStatus { original_url: "https://weibo.com/1/abc".to_string() };
    assert_eq!(resume(pending.clone(), &page(r#"{"ok": 0}"#)), expected);
    assert_eq!(resume(pending.clone(), &page("<html>")), expected);
    assert_eq!(resume(pending, &HttpEvent::Unreachable), expected);
}

#[test]
fn desktop_page_gives_the_record_of_the_first_element_of_its_state() {
    let html = r#"<script>var $render_data = [{"status":{"text":"<b>hi</b>","user":{"screen_name":"u","avatar_large":"https://wx1.sinaimg.cn/large/a.jpg"},"pics":[{"url":"https://i/1.jpg"}]}}][0] || {};</script>"#;
    match resume(Pending::WeiboDesktop, &page(html)) {
        Step::Done(record) => {
            assert_eq!(record.title, "hi");
            assert_eq!(record.author.name, "u");
            assert_eq!(record.author.avatar, "https://wx1.sinaimg.cn/large/a.jpg");
            assert_eq!(
                record.images,
                vec![ImgInfo { url: "https://i/1.jpg".to_string(), live_photo_url: None }]
            );
            assert_eq!(record.video_url, "");
            assert_eq!(record.platform, "weibo");
        }
        other => panic!("unexpected {:?}", other),
    }
}

#[test]
fn state_of_the_desktop_page_is_read_as_a_list_or_as_its_element() {
    let element = r#"{"status": {"text": " post ", "user": {"screen_name": "u"}, "pics": [{"large": {"url": "https://wx1.sinaimg.cn/large/p.jpg"}}, {"url": ""}]}}"#;
    let as_list = Json::parse(&format!("[{}, {{\"status\": {{\"text\": \"second\"}}}}]", element)).unwrap();
    let as_element = Json::parse(element).unwrap();
    let record = Weibo::record_of_state(&as_list);
    assert_eq!(record.title, "post");
    assert_eq!(record.author.name, "u");
    assert_eq!(
        record.images,
        vec![ImgInfo { url: "https://wx1.sinaimg.cn/large/p.jpg".to_string(), live_photo_url: None }]
    );
    assert_eq!(Weibo::record_of_state(&as_element), record);
    let empty = Weibo::record_of_state(&Json::parse("[]").unwrap());
    assert_eq!(empty.title, "");
    assert_eq!(empty.platform, "weibo");
    assert!(empty.images.is_empty());
    assert_eq!(Weibo::record_of_state(&Json::parse("[7]").unwrap()), empty);
}

#[test]
fn desktop_page_without_state_fails() {
    assert_eq!(
        resume(Pending::WeiboDesktop, &page("<html></html>")),
        Step::Failed(ResolutionError::UpstreamFormatChanged)
    );
    assert!(matches!(
        resume(Pending::WeiboDesktop, &page("var $render_data = oops[0]")),
        Step::Failed(ResolutionError::MalformedEmbeddedState(_))
    ));
    assert_eq!(
        resume(Pending::WeiboDesktop, &HttpEvent::Unreachable),
        Step::Failed(ResolutionError::UpstreamUnreachable)
    );
}
