//! Social-post platform: a link names a video, or a post with pictures.

use vstd::prelude::*;

use crate::embedded::{extract_with_marker, extracted};
use crate::error::{ErrorView, ResolutionError};
use crate::json::{
    at, either, element, get, items, items_of, json_parse, member, members, members_of, or,
    string_or_empty,
    text, text_of, text_or_empty, Json,
};
use crate::link::{url_parse, UrlParts};
use crate::models::{
    images_view, lemma_images_view_push, Author, AuthorView, ImgInfo, ImgInfoView,
    VideoParseInfo, VideoParseInfoView,
};
use crate::parser::utils::{link_of, scheme_len_at, share_link, DEFAULT_USER_AGENT};
use crate::protocol::{
    HttpEvent, HttpEventView, HttpRequest, HttpRequestView, Pending, PendingView, Step, StepView,
};
use crate::text::{
    all_of, append_str, chars_of, contains, ends_with, find_tagged_run, finishes_with, has,
    begins_with, joined, occurs_at, only, replace_all, replaced, run_end, same,
    skip_run, slice_of, split, split_at_char, starts_with, str_concat, str_contains, string_of,
    strip_tags, tagged_run, trim, trimmed, without_tags, CharClass,
};

verus! {

/// The adapter of the platform.
pub struct Weibo;

/// The name that records of this platform carry.
pub const PLATFORM: &'static str = "weibo";

/// The variable that the desktop page assigns its state to.
pub const RENDER_DATA: &'static str = "$render_data";

/// The marker that closes the state in the desktop page.
pub const RENDER_DATA_END: &'static str = "[0]";

/// The address of the video component API for one video.
pub const VIDEO_API: &'static str = "https://h5.video.weibo.com/api/component?page=/show/";

/// The page that a request to the video component API names as its origin.
pub const VIDEO_PAGE: &'static str = "https://h5.video.weibo.com/show/";

/// The address of the mobile status API for one post.
pub const STATUS_API: &'static str = "https://m.weibo.cn/statuses/show?id=";

/// The session that requests to the video component API present.
pub const VIDEO_COOKIE: &'static str =
    "login_sid_t=6b652c77c1a4bc50cb9d06b24923210d; cross_origin_proto=SSL; WBStorage=2ceabba76d81138d|undefined; _s_tentry=passport.weibo.com; Apache=7330066378690.048.1625663522444; SINAGLOBAL=7330066378690.048.1625663522444; ULV=1625663522450:1:1:1:7330066378690.048.1625663522444:; TC-V-WEIBO-G0=35846f552801987f8c1e8f7cec0e2230; SUB=_2AkMXuScYf8NxqwJRmf8RzmnhaoxwzwDEieKh5dbDJRMxHRl-yT9jqhALtRB6PDkJ9w8OaqJAbsgjdEWtIcilcZxHG7rw; SUBP=0033WrSXqPxfM72-Ws9jqgMF55529P9D9W5Qx3Mf.RCfFAKC3smW0px0; XSRF-TOKEN=JQSK02Ijtm4Fri-YIRu0-vNj";

/// The `User-Agent` of requests to the mobile status API.
pub const MOBILE_USER_AGENT: &'static str =
    "Mozilla/5.0 (iPhone; CPU iPhone OS 14_0 like Mac OS X) AppleWebKit/605.1.15 (KHTML, like Gecko) Version/14.0 Mobile/15E148 Safari/604.1";

/// The `User-Agent` of requests for the desktop page.
pub const DESKTOP_USER_AGENT: &'static str =
    "Mozilla/5.0 (Windows NT 10.0; Win64; x64) AppleWebKit/537.36 (KHTML, like Gecko) Chrome/91.0.4472.124 Safari/537.36";

/// The host that serves pictures without checking where a request comes
/// from, with the path of full-size pictures.
pub const OPEN_IMAGE_ROOT: &'static str = "https://ww1.sinaimg.cn/large/";

/// The text of a post without its markup and the white space around it.
pub open spec fn clean(text: Seq<char>) -> Seq<char> {
    trimmed(without_tags(text), CharClass::Space)
}

/// Whether a path segment names a size of picture: `mw` or `orj` and
/// digits, one of four fixed names, or anything that begins with `crop`.
pub open spec fn is_size_segment(seg: Seq<char>) -> bool {
    ||| starts_with(seg, "mw"@) && seg.len() > 2 && all_of(seg.skip(2), CharClass::Digit)
    ||| starts_with(seg, "orj"@) && seg.len() > 3 && all_of(seg.skip(3), CharClass::Digit)
    ||| seg == "large"@
    ||| seg == "original"@
    ||| seg == "bmiddle"@
    ||| seg == "thumbnail"@
    ||| starts_with(seg, "crop"@)
}

/// The picture that the address beginning at position `i` of `url` names:
/// what follows the size segment, up to the end of the line, where the host
/// is below `sinaimg.cn`.
pub open spec fn image_id_at(url: Seq<char>, i: int) -> Option<Seq<char>> {
    match scheme_len_at(url, i) {
        Some(n) => {
            let host_end = run_end(url, CharClass::Except('/'), i + n);
            let seg_end = run_end(url, CharClass::Except('/'), host_end + 1);
            let id_end = run_end(url, CharClass::Except('\n'), seg_end + 1);
            if host_end < url.len() && host_end - (i + n) > 11 && ends_with(
                url.subrange(i + n, host_end),
                ".sinaimg.cn"@,
            ) && seg_end < url.len() && is_size_segment(url.subrange(host_end + 1, seg_end))
                && id_end > seg_end + 1 {
                Some(url.subrange(seg_end + 1, id_end))
            } else {
                None
            }
        },
        None => None,
    }
}

/// The picture that the first such address at or after position `i` names.
pub open spec fn image_id_from(url: Seq<char>, i: int) -> Option<Seq<char>>
    decreases url.len() - i,
{
    if i < 0 || i >= url.len() {
        None
    } else {
        match image_id_at(url, i) {
            Some(id) => Some(id),
            None => image_id_from(url, i + 1),
        }
    }
}

/// The address of a picture on the host that serves it to anyone: the
/// full-size picture by its name where the address shows host, size and
/// name; else the address with the known picture hosts replaced.
pub open spec fn converted_image_url(url: Seq<char>) -> Seq<char> {
    match image_id_from(url, 0) {
        Some(id) => OPEN_IMAGE_ROOT@ + id,
        None => replaced(
            replaced(
                replaced(
                    replaced(
                        replaced(
                            replaced(
                                replaced(url, "wx1.sinaimg.cn"@, "ww1.sinaimg.cn"@),
                                "wx2.sinaimg.cn"@,
                                "ww1.sinaimg.cn"@,
                            ),
                            "wx3.sinaimg.cn"@,
                            "ww1.sinaimg.cn"@,
                        ),
                        "wx4.sinaimg.cn"@,
                        "ww1.sinaimg.cn"@,
                    ),
                    "tvax1.sinaimg.cn"@,
                    "ww1.sinaimg.cn"@,
                ),
                "tvax2.sinaimg.cn"@,
                "ww1.sinaimg.cn"@,
            ),
            "tva1.sinaimg.cn"@,
            "ww1.sinaimg.cn"@,
        ),
    }
}

/// The member `url` of the member `size` of a picture.
pub open spec fn url_under(pic: Json, size: Seq<char>) -> Option<Json> {
    member(member(Some(pic), size), "url"@)
}

/// The address of the largest variant that an entry of `pic_infos` has.
pub open spec fn largest_of_info(pic: Json) -> Seq<char> {
    text_or_empty(
        or(
            or(or(url_under(pic, "largest"@), url_under(pic, "original"@)), url_under(pic, "large"@)),
            url_under(pic, "bmiddle"@),
        ),
    )
}

/// The address of the largest variant that an entry of `pics` has.
pub open spec fn largest_of_pic(pic: Json) -> Seq<char> {
    text_or_empty(
        or(
            or(or(url_under(pic, "large"@), url_under(pic, "original"@)), url_under(pic, "bmiddle"@)),
            member(Some(pic), "url"@),
        ),
    )
}

/// The image at `url`, where there is an address.
pub open spec fn pic_image(url: Seq<char>, convert: bool) -> Option<ImgInfoView> {
    if url.len() > 0 {
        Some(
            ImgInfoView {
                url: if convert {
                    converted_image_url(url)
                } else {
                    url
                },
                live_photo_url: None,
            },
        )
    } else {
        None
    }
}

/// The images of the first `n` entries of `pic_infos`.
pub open spec fn info_images_until(infos: Seq<(String, Json)>, n: int) -> Seq<ImgInfoView>
    decreases n,
{
    if n <= 0 {
        Seq::empty()
    } else {
        match pic_image(largest_of_info(infos[n - 1].1), true) {
            Some(image) => info_images_until(infos, n - 1).push(image),
            None => info_images_until(infos, n - 1),
        }
    }
}

/// The images of the first `n` entries of `pics`.
pub open spec fn pic_images_until(pics: Seq<Json>, convert: bool, n: int) -> Seq<ImgInfoView>
    decreases n,
{
    if n <= 0 {
        Seq::empty()
    } else {
        match pic_image(largest_of_pic(pics[n - 1]), convert) {
            Some(image) => pic_images_until(pics, convert, n - 1).push(image),
            None => pic_images_until(pics, convert, n - 1),
        }
    }
}

/// The images of a post as the mobile API describes it: those of
/// `pic_infos` where that is an object, else those of `pics`.
pub open spec fn mobile_images(data: Json) -> Seq<ImgInfoView> {
    match members_of(member(Some(data), "pic_infos"@)) {
        Some(infos) => info_images_until(infos, infos.len() as int),
        None => match items_of(member(Some(data), "pics"@)) {
            Some(pics) => pic_images_until(pics, true, pics.len() as int),
            None => Seq::empty(),
        },
    }
}

/// The stream that the media information of a post names: the first that
/// is there of five, by falling quality.
pub open spec fn media_url(data: Json) -> Seq<char> {
    let info = member(member(Some(data), "page_info"@), "media_info"@);
    text_or_empty(
        or(
            or(
                or(
                    or(member(info, "stream_url_hd"@), member(info, "stream_url"@)),
                    member(info, "mp4_720p_mp4"@),
                ),
                member(info, "mp4_hd_url"@),
            ),
            member(info, "mp4_sd_url"@),
        ),
    )
}

/// The address of the page of the video `id`.
pub open spec fn video_page_url(id: Seq<char>) -> Seq<char> {
    "https://video.weibo.com/show?fid="@ + id
}

/// The video of a post: the stream that its media information names; where
/// there is none and the text links to a video page, the address of that
/// page.
pub open spec fn mobile_video_url(data: Json) -> Seq<char> {
    let raw = text_or_empty(member(Some(data), "text"@));
    if media_url(data).len() == 0 && contains(raw, "video.weibo.com/show"@) {
        match tagged_run(raw, "video.weibo.com/show?fid="@, CharClass::QuotedParamValue) {
            Some(id) => video_page_url(id),
            None => Seq::empty(),
        }
    } else {
        media_url(data)
    }
}

/// The cover of a post: the picture of its page information, given as a
/// text or as an object with a `url`.
pub open spec fn page_cover(data: Json) -> Seq<char> {
    let pic = member(member(Some(data), "page_info"@), "page_pic"@);
    match text_of(pic) {
        Some(u) => converted_image_url(u),
        None => match text_of(member(pic, "url"@)) {
            Some(u) => converted_image_url(u),
            None => Seq::empty(),
        },
    }
}

/// The post as the mobile API describes it, before it is made a gallery
/// or a video: the video may still be the address of a video page, which
/// the video component API turns into a stream.
pub open spec fn mobile_post(data: Json) -> VideoParseInfoView {
    let user = member(Some(data), "user"@);
    VideoParseInfoView::plain(
        AuthorView {
            uid: Seq::empty(),
            name: text_or_empty(member(user, "screen_name"@)),
            avatar: converted_image_url(text_or_empty(member(user, "avatar_large"@))),
        },
        clean(text_or_empty(member(Some(data), "text"@))),
        mobile_video_url(data),
        page_cover(data),
        mobile_images(data),
        PLATFORM@,
    )
}

/// The record of a post as the mobile API describes it.
pub open spec fn mobile_record(data: Json) -> VideoParseInfoView {
    mobile_post(data).normalized()
}

/// The post in the state of the desktop page: the page writes its state as
/// a list and takes the first element of it, so the post is the member
/// `status` of that element; a state that is no list holds the member
/// itself.
pub open spec fn desktop_status(state: Json) -> Option<Json> {
    member(or(element(Some(state), 0), Some(state)), "status"@)
}

/// The record of a post as the state of the desktop page describes it.
pub open spec fn html_record(state: Json) -> VideoParseInfoView {
    let status = desktop_status(state);
    let user = member(status, "user"@);
    VideoParseInfoView::plain(
        AuthorView {
            uid: Seq::empty(),
            name: text_or_empty(member(user, "screen_name"@)),
            avatar: text_or_empty(member(user, "avatar_large"@)),
        },
        clean(text_or_empty(member(status, "text"@))),
        Seq::empty(),
        Seq::empty(),
        match items_of(member(status, "pics"@)) {
            Some(pics) => pic_images_until(pics, false, pics.len() as int),
            None => Seq::empty(),
        },
        PLATFORM@,
    ).normalized()
}

/// `"https:"` before a text that is there, else the empty text.
pub open spec fn with_scheme(o: Option<Seq<char>>) -> Seq<char> {
    match o {
        Some(u) => "https:"@ + u,
        None => Seq::empty(),
    }
}

/// The record of a video as the video component API describes it.
pub open spec fn component_record(data: Json) -> VideoParseInfoView {
    VideoParseInfoView::plain(
        AuthorView {
            uid: Seq::empty(),
            name: text_or_empty(member(Some(data), "author"@)),
            avatar: with_scheme(text_of(member(Some(data), "avatar"@))),
        },
        text_or_empty(member(Some(data), "title"@)),
        match members_of(member(Some(data), "urls"@)) {
            Some(urls) => if urls.len() > 0 {
                with_scheme(text_of(Some(urls[0].1)))
            } else {
                Seq::empty()
            },
            None => Seq::empty(),
        },
        with_scheme(text_of(member(Some(data), "cover_image"@))),
        Seq::empty(),
        PLATFORM@,
    )
}

/// What the answer of the video component API gives.
pub open spec fn video_outcome(event: HttpEventView) -> Result<VideoParseInfoView, ErrorView> {
    match event {
        HttpEventView::Unreachable => Err(ErrorView::UpstreamUnreachable),
        HttpEventView::Response { status, location, body } => match member(
            member(json_parse(body), "data"@),
            "Component_Play_Playinfo"@,
        ) {
            Some(data) => Ok(component_record(data)),
            None => Err(ErrorView::UpstreamFormatChanged),
        },
    }
}

/// The body of a request to the video component API.
pub open spec fn video_form(id: Seq<char>) -> Seq<char> {
    "data={\"Component_Play_Playinfo\":{\"oid\":\""@ + id + "\"}}"@
}

/// The request to the video component API for the video `id`.
pub open spec fn video_request(id: Seq<char>) -> HttpRequestView {
    HttpRequestView::post(VIDEO_API@ + id, video_form(id)).header("Cookie"@, VIDEO_COOKIE@).header(
        "Referer"@,
        VIDEO_PAGE@ + id,
    ).header("Content-Type"@, "application/x-www-form-urlencoded"@).header(
        "User-Agent"@,
        DEFAULT_USER_AGENT@,
    )
}

/// The request to the mobile status API for the post `id`.
pub open spec fn status_request(id: Seq<char>) -> HttpRequestView {
    HttpRequestView::get(STATUS_API@ + id).header("User-Agent"@, MOBILE_USER_AGENT@).header(
        "Referer"@,
        "https://m.weibo.cn/"@,
    ).header("Content-Type"@, "application/json;charset=UTF-8"@).header(
        "X-Requested-With"@,
        "XMLHttpRequest"@,
    )
}

/// The request for the desktop page of a post.
pub open spec fn desktop_request(url: Seq<char>) -> HttpRequestView {
    HttpRequestView::get(url).header("User-Agent"@, DESKTOP_USER_AGENT@)
}

/// The request for a video, where the link named one.
pub open spec fn to_video(id: Option<Seq<char>>) -> StepView {
    match id {
        Some(id) => StepView::Fetch(video_request(id), PendingView::WeiboVideo),
        None => StepView::Failed(ErrorView::InvalidShareInput),
    }
}

/// Where a resolution starts: a link with a video identifier in its query
/// or its path leads to the video component API, a link with a path of two
/// or more pieces to the mobile status API.
pub open spec fn started(raw: Seq<char>) -> StepView {
    let link = share_link(raw);
    match url_parse(link) {
        Some(parts) => {
            let pieces = split(trimmed(parts.path@, CharClass::Only('/')), '/');
            if contains(link, "show?fid="@) {
                to_video(parts.query_value("fid"@))
            } else if contains(link, "/tv/show/"@) {
                to_video(Some(replaced(parts.path@, "/tv/show/"@, Seq::empty())))
            } else if pieces.len() >= 2 {
                StepView::Fetch(
                    status_request(pieces.last()),
                    PendingView::WeiboStatus { original_url: link },
                )
            } else {
                StepView::Failed(ErrorView::InvalidShareInput)
            }
        },
        None => StepView::Failed(ErrorView::InvalidShareInput),
    }
}

/// What follows the answer of the video component API for a video link.
pub open spec fn after_video(event: HttpEventView) -> StepView {
    match video_outcome(event) {
        Ok(record) => StepView::Done(record.normalized()),
        Err(e) => StepView::Failed(e),
    }
}

/// What the mobile status API tells about a post.
pub open spec fn status_data(event: HttpEventView) -> Option<Json> {
    match event {
        HttpEventView::Response { status, location, body } => member(json_parse(body), "data"@),
        HttpEventView::Unreachable => None,
    }
}

/// What follows a post of the mobile API: where its video is the address
/// of a video page, the video component API is asked for the stream.
pub open spec fn after_mobile_post(record: VideoParseInfoView) -> StepView {
    if contains(record.video_url, "video.weibo.com/show?fid="@) {
        match tagged_run(record.video_url, "fid="@, CharClass::ParamValue) {
            Some(id) => StepView::Fetch(video_request(id), PendingView::WeiboPostVideo { record }),
            None => StepView::Done(record.normalized()),
        }
    } else {
        StepView::Done(record.normalized())
    }
}

/// What follows the answer of the mobile status API: the record of the
/// post, or the request for the desktop page where the API tells nothing.
pub open spec fn after_status(original_url: Seq<char>, event: HttpEventView) -> StepView {
    match status_data(event) {
        Some(data) => after_mobile_post(mobile_post(data)),
        None => StepView::Fetch(desktop_request(original_url), PendingView::WeiboDesktop),
    }
}

/// The record of a post with the stream and, where it had none, the cover
/// that the video component API gave.
pub open spec fn with_stream(record: VideoParseInfoView, video: VideoParseInfoView) -> VideoParseInfoView {
    VideoParseInfoView {
        video_url: video.video_url,
        cover_url: if record.cover_url.len() == 0 {
            video.cover_url
        } else {
            record.cover_url
        },
        ..record
    }
}

/// What follows the answer of the video component API for a post.
pub open spec fn after_post_video(record: VideoParseInfoView, event: HttpEventView) -> StepView {
    match video_outcome(event) {
        Ok(video) => StepView::Done(with_stream(record, video).normalized()),
        Err(_) => StepView::Done(record.normalized()),
    }
}

/// What follows the desktop page of a post.
pub open spec fn after_desktop(event: HttpEventView) -> StepView {
    match event {
        HttpEventView::Unreachable => StepView::Failed(ErrorView::UpstreamUnreachable),
        HttpEventView::Response { status, location, body } => match extracted(
            body,
            RENDER_DATA@,
            RENDER_DATA_END@,
        ) {
            Ok(state) => StepView::Done(html_record(state)),
            Err(e) => StepView::Failed(e),
        },
    }
}

/// Whether a path segment names a size of picture.
fn size_segment(seg: &[char]) -> (b: bool)
    ensures
        b == is_size_segment(seg@),
{
    let mw = chars_of("mw");
    let orj = chars_of("orj");
    let crop = chars_of("crop");
    let large = chars_of("large");
    let original = chars_of("original");
    let bmiddle = chars_of("bmiddle");
    let thumbnail = chars_of("thumbnail");
    proof {
        reveal_strlit("mw");
        reveal_strlit("orj");
    }
    if begins_with(seg, mw.as_slice()) && seg.len() > 2 {
        let rest = slice_of(seg, 2, seg.len());
        if only(rest.as_slice(), CharClass::Digit) {
            return true;
        }
    }
    if begins_with(seg, orj.as_slice()) && seg.len() > 3 {
        let rest = slice_of(seg, 3, seg.len());
        if only(rest.as_slice(), CharClass::Digit) {
            return true;
        }
    }
    same(seg, large.as_slice()) || same(seg, original.as_slice()) || same(
        seg,
        bmiddle.as_slice(),
    ) || same(seg, thumbnail.as_slice()) || begins_with(seg, crop.as_slice())
}

/// The picture that the first address of a known picture host in `url`
/// names.
fn image_id(url: &[char]) -> (r: Option<Vec<char>>)
    ensures
        match r {
            Some(id) => image_id_from(url@, 0) == Some(id@),
            None => image_id_from(url@, 0) is None,
        },
{
    let secure = chars_of("https://");
    let open = chars_of("http://");
    let domain = chars_of(".sinaimg.cn");
    proof {
        reveal_strlit("https://");
        reveal_strlit("http://");
    }
    let total = url.len();
    let mut i: usize = 0;
    while i < total
        invariant
            i <= total,
            total == url@.len(),
            secure@ == "https://"@,
            open@ == "http://"@,
            domain@ == ".sinaimg.cn"@,
            secure@.len() == 8,
            open@.len() == 7,
            image_id_from(url@, 0) == image_id_from(url@, i as int),
        decreases total - i,
    {
        let n: usize = if occurs_at(url, secure.as_slice(), i) {
            8
        } else if occurs_at(url, open.as_slice(), i) {
            7
        } else {
            0
        };
        if n > 0 {
            let host_end = skip_run(url, CharClass::Except('/'), i + n);
            if host_end < total && host_end - (i + n) > 11 {
                let host = slice_of(url, i + n, host_end);
                let seg_end = skip_run(url, CharClass::Except('/'), host_end + 1);
                if seg_end < total && finishes_with(host.as_slice(), domain.as_slice()) {
                    let seg = slice_of(url, host_end + 1, seg_end);
                    let id_end = skip_run(url, CharClass::Except('\n'), seg_end + 1);
                    if size_segment(seg.as_slice()) && id_end > seg_end + 1 {
                        return Some(slice_of(url, seg_end + 1, id_end));
                    }
                }
            }
        }
        i += 1;
    }
    None
}

impl Weibo {
    /// The request to the video component API for the video `video_id`.
    pub fn video_api_request(video_id: &str) -> (r: HttpRequest)
        ensures
            r@ == video_request(video_id@),
    {
        let url = str_concat(VIDEO_API, video_id);
        let referer = str_concat(VIDEO_PAGE, video_id);
        let mut form: Vec<char> = Vec::new();
        append_str(&mut form, "data={\"Component_Play_Playinfo\":{\"oid\":\"");
        append_str(&mut form, video_id);
        append_str(&mut form, "\"}}");
        HttpRequest::post(url, string_of(form.as_slice())).header("Cookie", VIDEO_COOKIE).header(
            "Referer",
            referer.as_str(),
        ).header("Content-Type", "application/x-www-form-urlencoded").header(
            "User-Agent",
            DEFAULT_USER_AGENT,
        )
    }

    /// The request to the mobile status API for the post `post_id`.
    pub fn status_api_request(post_id: &str) -> (r: HttpRequest)
        ensures
            r@ == status_request(post_id@),
    {
        HttpRequest::get(str_concat(STATUS_API, post_id)).header(
            "User-Agent",
            MOBILE_USER_AGENT,
        ).header("Referer", "https://m.weibo.cn/").header(
            "Content-Type",
            "application/json;charset=UTF-8",
        ).header("X-Requested-With", "XMLHttpRequest")
    }

    /// The first step of resolving a share text of the platform.
    pub fn parse_share_url(share_url: &str) -> (step: Step)
        ensures
            step@ == started(share_url@),
            step@.is_exclusive(),
    {
        let url_str = link_of(share_url);
        let parts = match UrlParts::parse(url_str.as_str()) {
            Some(p) => p,
            None => {
                return Step::Failed(ResolutionError::InvalidShareInput);
            },
        };
        if str_contains(url_str.as_str(), "show?fid=") {
            match parts.query("fid") {
                Some(video_id) => Step::Fetch(
                    Self::video_api_request(video_id.as_str()),
                    Pending::WeiboVideo,
                ),
                None => Step::Failed(ResolutionError::InvalidShareInput),
            }
        } else if str_contains(url_str.as_str(), "/tv/show/") {
            let path = chars_of(parts.path.as_str());
            let prefix = chars_of("/tv/show/");
            let nothing: Vec<char> = Vec::new();
            let video_id = replace_all(path.as_slice(), prefix.as_slice(), nothing.as_slice());
            let video_id = string_of(video_id.as_slice());
            Step::Fetch(Self::video_api_request(video_id.as_str()), Pending::WeiboVideo)
        } else {
            let path = chars_of(parts.path.as_str());
            let bare = trim(path.as_slice(), CharClass::Only('/'));
            let mut pieces = split_at_char(bare.as_slice(), '/');
            let n = pieces.len();
            if n >= 2 {
                let post_id = pieces.swap_remove(n - 1);
                let post_id = string_of(post_id.as_slice());
                Step::Fetch(
                    Self::status_api_request(post_id.as_str()),
                    Pending::WeiboStatus { original_url: url_str },
                )
            } else {
                Step::Failed(ResolutionError::InvalidShareInput)
            }
        }
    }

    /// What the answer of the video component API gives.
    pub fn parse_video_id(event: &HttpEvent) -> (r: Result<VideoParseInfo, ResolutionError>)
        ensures
            match r {
                Ok(record) => video_outcome(event@) == Ok::<VideoParseInfoView, ErrorView>(record@)
                    && record@.is_exclusive(),
                Err(e) => video_outcome(event@) == Err::<VideoParseInfoView, ErrorView>(e@),
            },
    {
        let body = match event {
            HttpEvent::Unreachable => {
                return Err(ResolutionError::UpstreamUnreachable);
            },
            HttpEvent::Response { status, location, body } => body,
        };
        let json = Json::parse(body.as_str());
        match get(get(json.as_ref(), "data"), "Component_Play_Playinfo") {
            Some(data) => Ok(Self::record_of_component(data)),
            None => Err(ResolutionError::UpstreamFormatChanged),
        }
    }

    /// The record of a video as the video component API describes it in
    /// `data`.
    pub fn record_of_component(data: &Json) -> (r: VideoParseInfo)
        ensures
            r@ == component_record(*data),
            r@.is_exclusive(),
    {
        let node = Some(data);
        let video_url = match members(get(node, "urls")) {
            Some(urls) => {
                if urls.len() > 0 {
                    Self::with_https(text(Some(&urls[0].1)))
                } else {
                    String::new()
                }
            },
            None => String::new(),
        };
        let cover_url = Self::with_https(text(get(node, "cover_image")));
        let avatar = Self::with_https(text(get(node, "avatar")));
        let author = Author {
            uid: String::new(),
            name: string_or_empty(get(node, "author")),
            avatar,
        };
        let title = string_or_empty(get(node, "title"));
        let images: Vec<ImgInfo> = Vec::new();
        assert(images_view(images@) =~= Seq::empty());
        VideoParseInfo::plain(author, title, video_url, cover_url, images, PLATFORM)
    }

    /// `"https:"` before a text that is there, else the empty string.
    fn with_https(o: Option<&String>) -> (r: String)
        ensures
            r@ == with_scheme(
                match o {
                    Some(s) => Some(s@),
                    None => None,
                },
            ),
    {
        match o {
            Some(s) => str_concat("https:", s.as_str()),
            None => String::new(),
        }
    }

    /// What follows the answer of the video component API for a video link.
    pub fn parse_video(event: &HttpEvent) -> (step: Step)
        ensures
            step@ == after_video(event@),
            step@.is_exclusive(),
    {
        match Self::parse_video_id(event) {
            Ok(record) => Step::Done(record.normalize()),
            Err(e) => Step::Failed(e),
        }
    }

    /// What follows the answer of the mobile status API for the post at
    /// `original_url`.
    pub fn parse_post_url(original_url: String, event: &HttpEvent) -> (step: Step)
        ensures
            step@ == after_status(original_url@, event@),
            step@.is_exclusive(),
    {
        let json = match event {
            HttpEvent::Response { status, location, body } => Json::parse(body.as_str()),
            HttpEvent::Unreachable => None,
        };
        match get(json.as_ref(), "data") {
            Some(data) => {
                let record = Self::post_of(data);
                if str_contains(record.video_url.as_str(), "video.weibo.com/show?fid=") {
                    let url = chars_of(record.video_url.as_str());
                    let tag = chars_of("fid=");
                    match find_tagged_run(url.as_slice(), tag.as_slice(), CharClass::ParamValue) {
                        Some(id) => {
                            let id = string_of(id.as_slice());
                            return Step::Fetch(
                                Self::video_api_request(id.as_str()),
                                Pending::WeiboPostVideo { record },
                            );
                        },
                        None => {},
                    }
                }
                Step::Done(record.normalize())
            },
            None => {
                let request = HttpRequest::get(original_url).header(
                    "User-Agent",
                    DESKTOP_USER_AGENT,
                );
                Step::Fetch(request, Pending::WeiboDesktop)
            },
        }
    }

    /// What follows the answer of the video component API for the post
    /// that `record` describes.
    pub fn parse_post_video(record: VideoParseInfo, event: &HttpEvent) -> (step: Step)
        ensures
            step@ == after_post_video(record@, event@),
            step@.is_exclusive(),
    {
        match Self::parse_video_id(event) {
            Ok(video) => {
                let mut record = record;
                record.video_url = video.video_url;
                if record.cover_url.as_str().is_empty() {
                    record.cover_url = video.cover_url;
                }
                Step::Done(record.normalize())
            },
            Err(_) => Step::Done(record.normalize()),
        }
    }

    /// The record of a post as the mobile API describes it in `data`.
    pub fn parse_mobile_api_data(data: &Json) -> (r: VideoParseInfo)
        ensures
            r@ == mobile_record(*data),
            r@.is_exclusive(),
    {
        Self::post_of(data).normalize()
    }

    /// The post as the mobile API describes it in `data`, before it is
    /// made a gallery or a video.
    fn post_of(data: &Json) -> (r: VideoParseInfo)
        ensures
            r@ == mobile_post(*data),
    {
        let node = Some(data);
        let raw_text = string_or_empty(get(node, "text"));
        let title = Self::clean_text(raw_text.as_str());
        let user = get(node, "user");
        let author_name = string_or_empty(get(user, "screen_name"));
        let avatar_large = string_or_empty(get(user, "avatar_large"));
        let author_avatar = Self::convert_image_url(avatar_large.as_str());
        let page_info = get(node, "page_info");
        let media_info = get(page_info, "media_info");
        let mut video_url = string_or_empty(
            either(
                either(
                    either(
                        either(get(media_info, "stream_url_hd"), get(media_info, "stream_url")),
                        get(media_info, "mp4_720p_mp4"),
                    ),
                    get(media_info, "mp4_hd_url"),
                ),
                get(media_info, "mp4_sd_url"),
            ),
        );
        let page_pic = get(page_info, "page_pic");
        let cover_url = match text(page_pic) {
            Some(url) => Self::convert_image_url(url.as_str()),
            None => match text(get(page_pic, "url")) {
                Some(url) => Self::convert_image_url(url.as_str()),
                None => String::new(),
            },
        };
        if video_url.as_str().is_empty() && str_contains(raw_text.as_str(), "video.weibo.com/show") {
            let raw = chars_of(raw_text.as_str());
            let tag = chars_of("video.weibo.com/show?fid=");
            match find_tagged_run(raw.as_slice(), tag.as_slice(), CharClass::QuotedParamValue) {
                Some(id) => {
                    let id = string_of(id.as_slice());
                    video_url = str_concat("https://video.weibo.com/show?fid=", id.as_str());
                },
                None => {},
            }
        }
        let images = match members(get(node, "pic_infos")) {
            Some(infos) => Self::info_images(infos),
            None => match items(get(node, "pics")) {
                Some(pics) => Self::pic_images(pics, true),
                None => {
                    let none: Vec<ImgInfo> = Vec::new();
                    assert(images_view(none@) =~= Seq::empty());
                    none
                },
            },
        };
        let author = Author { uid: String::new(), name: author_name, avatar: author_avatar };
        assert(video_url@ == mobile_video_url(*data));
        VideoParseInfo::plain(author, title, video_url, cover_url, images, PLATFORM)
    }

    /// The images of the entries of `pic_infos`.
    fn info_images(infos: &Vec<(String, Json)>) -> (images: Vec<ImgInfo>)
        ensures
            images_view(images@) == info_images_until(infos@, infos@.len() as int),
    {
        let mut images: Vec<ImgInfo> = Vec::new();
        let mut i: usize = 0;
        while i < infos.len()
            invariant
                i <= infos@.len(),
                images_view(images@) == info_images_until(infos@, i as int),
            decreases infos@.len() - i,
        {
            let pic = Some(&infos[i].1);
            let url = string_or_empty(
                either(
                    either(
                        either(
                            get(get(pic, "largest"), "url"),
                            get(get(pic, "original"), "url"),
                        ),
                        get(get(pic, "large"), "url"),
                    ),
                    get(get(pic, "bmiddle"), "url"),
                ),
            );
            if !url.as_str().is_empty() {
                let image = ImgInfo {
                    url: Self::convert_image_url(url.as_str()),
                    live_photo_url: None,
                };
                proof {
                    lemma_images_view_push(images@, image);
                }
                images.push(image);
            }
            i += 1;
        }
        images
    }

    /// The images of the entries of `pics`, their addresses converted or
    /// left as they are.
    fn pic_images(pics: &Vec<Json>, convert: bool) -> (images: Vec<ImgInfo>)
        ensures
            images_view(images@) == pic_images_until(pics@, convert, pics@.len() as int),
    {
        let mut images: Vec<ImgInfo> = Vec::new();
        let mut i: usize = 0;
        while i < pics.len()
            invariant
                i <= pics@.len(),
                images_view(images@) == pic_images_until(pics@, convert, i as int),
            decreases pics@.len() - i,
        {
            let pic = Some(&pics[i]);
            let url = string_or_empty(
                either(
                    either(
                        either(get(get(pic, "large"), "url"), get(get(pic, "original"), "url")),
                        get(get(pic, "bmiddle"), "url"),
                    ),
                    get(pic, "url"),
                ),
            );
            if !url.as_str().is_empty() {
                let image = ImgInfo {
                    url: if convert {
                        Self::convert_image_url(url.as_str())
                    } else {
                        url
                    },
                    live_photo_url: None,
                };
                proof {
                    lemma_images_view_push(images@, image);
                }
                images.push(image);
            }
            i += 1;
        }
        images
    }

    /// What follows the desktop page of a post.
    pub fn parse_html_page(event: &HttpEvent) -> (step: Step)
        ensures
            step@ == after_desktop(event@),
            step@.is_exclusive(),
    {
        let body = match event {
            HttpEvent::Unreachable => {
                return Step::Failed(ResolutionError::UpstreamUnreachable);
            },
            HttpEvent::Response { status, location, body } => body,
        };
        match extract_with_marker(body.as_str(), RENDER_DATA, RENDER_DATA_END) {
            Ok(state) => Step::Done(Self::record_of_state(&state)),
            Err(e) => Step::Failed(e),
        }
    }

    /// The record of a post as the state `state` of the desktop page
    /// describes it.
    pub fn record_of_state(state: &Json) -> (r: VideoParseInfo)
        ensures
            r@ == html_record(*state),
            r@.is_exclusive(),
    {
        let status = get(either(at(Some(state), 0), Some(state)), "status");
        let user = get(status, "user");
        let raw_text = string_or_empty(get(status, "text"));
        let title = Self::clean_text(raw_text.as_str());
        let author = Author {
            uid: String::new(),
            name: string_or_empty(get(user, "screen_name")),
            avatar: string_or_empty(get(user, "avatar_large")),
        };
        let images = match items(get(status, "pics")) {
            Some(pics) => Self::pic_images(pics, false),
            None => {
                let none: Vec<ImgInfo> = Vec::new();
                assert(images_view(none@) =~= Seq::empty());
                none
            },
        };
        VideoParseInfo::plain(
            author,
            title,
            String::new(),
            String::new(),
            images,
            PLATFORM,
        ).normalize()
    }

    /// The text of a post without its markup and the white space around it.
    pub fn clean_text(text: &str) -> (r: String)
        ensures
            r@ == clean(text@),
    {
        let raw = chars_of(text);
        let bare = strip_tags(raw.as_slice());
        let trimmed = trim(bare.as_slice(), CharClass::Space);
        string_of(trimmed.as_slice())
    }

    /// The address of a picture on the host that serves it to anyone.
    pub fn convert_image_url(url: &str) -> (r: String)
        ensures
            r@ == converted_image_url(url@),
    {
        let chars = chars_of(url);
        match image_id(chars.as_slice()) {
            Some(id) => {
                let root = chars_of(OPEN_IMAGE_ROOT);
                let out = joined(root.as_slice(), id.as_slice());
                string_of(out.as_slice())
            },
            None => {
                let open = chars_of("ww1.sinaimg.cn");
                let s = replace_all(chars.as_slice(), chars_of("wx1.sinaimg.cn").as_slice(), open.as_slice());
                let s = replace_all(s.as_slice(), chars_of("wx2.sinaimg.cn").as_slice(), open.as_slice());
                let s = replace_all(s.as_slice(), chars_of("wx3.sinaimg.cn").as_slice(), open.as_slice());
                let s = replace_all(s.as_slice(), chars_of("wx4.sinaimg.cn").as_slice(), open.as_slice());
                let s = replace_all(s.as_slice(), chars_of("tvax1.sinaimg.cn").as_slice(), open.as_slice());
                let s = replace_all(s.as_slice(), chars_of("tvax2.sinaimg.cn").as_slice(), open.as_slice());
                let s = replace_all(s.as_slice(), chars_of("tva1.sinaimg.cn").as_slice(), open.as_slice());
                string_of(s.as_slice())
            },
        }
    }
}

} // verus!
