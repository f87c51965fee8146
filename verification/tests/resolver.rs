use media_resolver::error::ResolutionError;
use media_resolver::models::{Author, ImgInfo, VideoParseInfo, VideoQuality};
use media_resolver::protocol::{HttpEvent, Location, Pending, Step};
use media_resolver::resolver::{entry, platform_of_host, resume, start, Platform, TABLE_LENGTH};

fn host(s: &str) -> Option<Platform> {
    let chars: Vec<char> = s.chars().collect();
    platform_of_host(&chars)
}

fn record(video_url: &str, images: usize, qualities: usize) -> VideoParseInfo {
    VideoParseInfo {
        author: Author { uid: "u".to_string(), name: "n".to_string(), avatar: "a".to_string() },
        title: "t".to_string(),
        video_url: video_url.to_string(),
        music_url: String::new(),
        cover_url: "c".to_string(),
        images: (0..images)
            .map(|i| ImgInfo { url: format!("https://i.example/{}", i), live_photo_url: None })
            .collect(),
        platform: "p".to_string(),
        video_qualities: (0..qualities)
            .map(|i| VideoQuality { quality: format!("q{}", i), video_url: format!("https://v.example/{}", i), size: None })
            .collect(),
        statistics: None,
        tags: None,
        music_info: None,
        create_time: None,
    }
}

#[test]
fn host_is_matched_against_the_table() {
    assert_eq!(host("v.douyin.com"), Some(Platform::DouYin));
    assert_eq!(host("www.iesdouyin.com"), Some(Platform::DouYin));
    assert_eq!(host("xhslink.com"), Some(Platform::Xiaohongshu));
    assert_eq!(host("www.xiaohongshu.com"), Some(Platform::Xiaohongshu));
    assert_eq!(host("h5.pipix.com"), Some(Platform::PiPiXia));
    assert_eq!(host("weibo.com"), Some(Platform::Weibo));
    assert_eq!(host("m.weibo.cn"), Some(Platform::Weibo));
    assert_eq!(host("v.kuaishou.com"), Some(Platform::Kuaishou));
    assert_eq!(host("v.m.chenzhongtech.com"), Some(Platform::Kuaishou));
    assert_eq!(host("www.bilibili.com"), Some(Platform::Bilibili));
    assert_eq!(host("b23.tv"), Some(Platform::Bilibili));
    assert_eq!(host("v.ixigua.com"), Some(Platform::XiGua));
    assert_eq!(host("example.com"), None);
    assert_eq!(host(""), None);
}

#[test]
fn first_entry_of_the_table_that_matches_wins() {
    assert_eq!(host("weibo.com.bilibili.com"), Some(Platform::Weibo));
    assert_eq!(host("b23.tv.douyin.com"), Some(Platform::DouYin));
    assert_eq!(TABLE_LENGTH, 12);
    assert_eq!(entry(0), ("douyin.com", Platform::DouYin));
    assert_eq!(entry(11), ("ixigua.com", Platform::XiGua));
}

#[test]
fn link_of_no_platform_is_unsupported() {
    assert_eq!(start("https://example.com/video/1"), Step::Failed(ResolutionError::UnsupportedPlatform));
    assert_eq!(
        start("https://example.com/?next=douyin.com"),
        Step::Failed(ResolutionError::UnsupportedPlatform)
    );
}

#[test]
fn text_without_link_that_is_no_link_is_invalid() {
    assert_eq!(start("just words"), Step::Failed(ResolutionError::InvalidShareInput));
    assert_eq!(start(""), Step::Failed(ResolutionError::InvalidShareInput));
    assert_eq!(start("douyin.com/video/1"), Step::Failed(ResolutionError::InvalidShareInput));
}

#[test]
fn raw_link_of_another_scheme_is_taken_verbatim() {
    assert!(matches!(start("ftp://www.bilibili.com/video/BV1xx411c7mD"), Step::Fetch(_, Pending::BilibiliView { .. })));
}

#[test]
fn record_with_images_never_leaves_with_a_video() {
    let event = HttpEvent::Response {
        status: 302,
        location: Location::Target("https://cdn.example/final".to_string()),
        body: String::new(),
    };
    for pending in [
        Pending::DouyinCdn { record: record("https://v.example/primary", 2, 3), next: 0 },
        Pending::DouyinCdn { record: record("https://v.example/primary", 2, 3), next: 3 },
        Pending::DouyinCdn { record: record("", 1, 0), next: 7 },
        Pending::WeiboPostVideo { record: record("https://v.example/primary", 1, 1) },
        Pending::XiguaVod { record: record("https://v.example/primary", 1, 1) },
        Pending::BilibiliPlay { record: record("https://v.example/primary", 1, 1) },
    ] {
        let mut step = resume(pending, &event);
        let mut rounds = 0;
        let done = loop {
            match step {
                Step::Fetch(_, pending) => {
                    rounds += 1;
                    assert!(rounds < 10);
                    step = resume(pending, &event);
                }
                Step::Done(record) => break Some(record),
                Step::Failed(_) => break None,
            }
        };
        if let Some(done) = done {
            assert!(!done.images.is_empty());
            assert_eq!(done.video_url, "");
            assert!(done.video_qualities.is_empty());
        }
    }
}

#[test]
fn normalizing_keeps_a_video_record_as_it_is() {
    let video = record("https://v.example/primary", 0, 2);
    assert_eq!(video.clone().normalize(), video);
    let text_post = record("", 0, 0);
    assert_eq!(text_post.clone().normalize(), text_post);
    let both = record("https://v.example/primary", 2, 2).normalize();
    assert_eq!(both.video_url, "");
    assert!(both.video_qualities.is_empty());
    assert_eq!(both.images.len(), 2);
    assert_eq!(both.title, "t");
}

#[test]
fn test_iesdouyin_redirect() {
    let step = start("https://www.iesdouyin.com/share/video/7227408198167186721/?region=CN&mid=1");
    match step {
        Step::Fetch(request, Pending::DouyinPage { video_id }) => {
            assert_eq!(video_id, "7227408198167186721");
            assert_eq!(request.url, "https://www.douyin.com/share/video/7227408198167186721");
            assert!(request.follow_redirects);
        }
        other => panic!("unexpected {:?}", other),
    }
}

#[test]
fn test_redirect_real_browser() {
    match start("https://v.douyin.com/iANyYmXn/") {
        Step::Fetch(request, Pending::DouyinRedirect) => {
            assert_eq!(request.url, "https://v.douyin.com/iANyYmXn/");
            assert!(!request.follow_redirects);
        }
        other => panic!("unexpected {:?}", other),
    }
}

#[test]
fn no_resolution_asks_more_than_a_handful_of_times() {
    let redirect = HttpEvent::Response {
        status: 302,
        location: Location::Target("https://www.douyin.com/video/1".to_string()),
        body: String::new(),
    };
    for raw in [
        "https://v.douyin.com/a/",
        "https://www.douyin.com/video/1",
        "http://xhslink.com/a",
        "https://h5.pipix.com/s/a/",
        "https://weibo.com/1/abc",
        "https://v.kuaishou.com/a",
        "https://b23.tv/a",
        "https://www.bilibili.com/video/BV1",
        "https://v.ixigua.com/a/",
    ] {
        let mut step = start(raw);
        let mut requests = 0;
        while let Step::Fetch(_, pending) = step {
            requests += 1;
            assert!(requests <= 5, "{}", raw);
            step = resume(pending, &redirect);
        }
    }
}
