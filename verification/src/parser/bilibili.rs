//! Video platform whose items are named by an identifier that begins with
//! `BV`: a metadata call and a stream call, both keyed by it.

use vstd::prelude::*;

use crate::error::{ErrorView, ResolutionError};
use crate::json::{
    as_i64, at, element, get, i64_of, json_parse, member, string_or_empty,
    text_or_empty, Json,
};
use crate::link::{url_parse, UrlParts};
use crate::models::{
    images_view, Author, AuthorView, ImgInfo, VideoParseInfo, VideoParseInfoView,
};
use crate::parser::utils::{decimal_string, decimal_text, link_of, share_link};
use crate::protocol::{
    probe, probe_request, redirect_target, resolve_redirect, HttpEvent, HttpEventView,
    HttpRequest, HttpRequestView, Pending, PendingView, Step, StepView,
};
use crate::text::{
    append_str, begins_with, chars_of, contains, same, slice_of, split, split_at_char,
    starts_with, str_concat, str_contains, str_starts_with, string_of,
};

verus! {

/// The adapter of the platform.
pub struct Bilibili;

/// The name that records of this platform carry.
pub const PLATFORM: &'static str = "bilibili";

/// The `User-Agent` of every request to the platform.
pub const BILI_USER_AGENT: &'static str =
    "Mozilla/5.0 (Windows NT 10.0; Win64; x64) AppleWebKit/537.36 (KHTML, like Gecko) Chrome/108.0.0.0 Safari/537.36";

/// The address of the metadata of one item.
pub const VIEW_API: &'static str = "https://api.bilibili.com/x/web-interface/view?bvid=";

/// The segments of a path that begins with `/`: its pieces after the first
/// slash.
pub open spec fn path_segments(path: Seq<char>) -> Option<Seq<Seq<char>>> {
    if path.len() > 0 && path[0] == '/' {
        Some(split(path.subrange(1, path.len() as int), '/'))
    } else {
        None
    }
}

/// The identifier that follows the first segment `video` at or after
/// position `i` that one follows.
pub open spec fn after_video_segment(segments: Seq<Seq<char>>, i: int) -> Option<Seq<char>>
    decreases segments.len() - i,
{
    if i < 0 || i + 1 >= segments.len() {
        None
    } else if segments[i] == "video"@ && starts_with(segments[i + 1], "BV"@) {
        Some(segments[i + 1])
    } else {
        after_video_segment(segments, i + 1)
    }
}

/// The first segment at or after position `i` that is an identifier.
pub open spec fn first_identifier(segments: Seq<Seq<char>>, i: int) -> Option<Seq<char>>
    decreases segments.len() - i,
{
    if i < 0 || i >= segments.len() {
        None
    } else if starts_with(segments[i], "BV"@) {
        Some(segments[i])
    } else {
        first_identifier(segments, i + 1)
    }
}

/// The identifier in the address of an item: the segment after `video`,
/// else the first segment that is one.
pub open spec fn bvid_of(address: Seq<char>) -> Option<Seq<char>> {
    match url_parse(address) {
        Some(parts) => match path_segments(parts.path@) {
            Some(segments) => match after_video_segment(segments, 0) {
                Some(bvid) => Some(bvid),
                None => first_identifier(segments, 0),
            },
            None => None,
        },
        None => None,
    }
}

/// The request for the metadata of one item.
pub open spec fn view_request(bvid: Seq<char>) -> HttpRequestView {
    HttpRequestView::get(VIEW_API@ + bvid).header("User-Agent"@, BILI_USER_AGENT@)
}

/// The address of the streams of one item.
pub open spec fn play_url(bvid: Seq<char>, cid: i64) -> Seq<char> {
    "https://api.bilibili.com/x/player/playurl?otype=json&fnver=0&fnval=0&qn=80&bvid="@ + bvid
        + "&cid="@ + decimal_text(cid as int) + "&platform=html5"@
}

/// The request for the streams of one item.
pub open spec fn play_request(bvid: Seq<char>, cid: i64) -> HttpRequestView {
    HttpRequestView::get(play_url(bvid, cid)).header("User-Agent"@, BILI_USER_AGENT@).header(
        "Referer"@,
        "https://www.bilibili.com/"@,
    )
}

/// The request for the metadata of the item, where the address named one.
pub open spec fn to_view(bvid: Option<Seq<char>>) -> StepView {
    match bvid {
        Some(bvid) => StepView::Fetch(view_request(bvid), PendingView::BilibiliView { bvid }),
        None => StepView::Failed(ErrorView::InvalidShareInput),
    }
}

/// A short link with its scheme.
pub open spec fn with_scheme(link: Seq<char>) -> Seq<char> {
    if starts_with(link, "http"@) {
        link
    } else {
        "https://"@ + link
    }
}

/// Where a resolution starts: a short link is asked where it leads, any
/// other link names the item itself.
pub open spec fn started(raw: Seq<char>) -> StepView {
    let link = share_link(raw);
    if contains(link, "b23.tv"@) {
        StepView::Fetch(probe(with_scheme(link), BILI_USER_AGENT@), PendingView::BilibiliShort)
    } else {
        to_view(bvid_of(link))
    }
}

/// What follows the answer of a short link.
pub open spec fn after_short(event: HttpEventView) -> StepView {
    match event {
        HttpEventView::Unreachable => StepView::Failed(ErrorView::UpstreamUnreachable),
        _ => match redirect_target(event) {
            Some(location) => to_view(bvid_of(location)),
            None => StepView::Failed(ErrorView::NoRedirectLocation),
        },
    }
}

/// A number of the metadata, 0 where it is none.
pub open spec fn number_or_zero(o: Option<i64>) -> i64 {
    match o {
        Some(n) => n,
        None => 0,
    }
}

/// The stream container of an item: its own, else that of its first page.
pub open spec fn cid_of(data: Option<Json>) -> i64 {
    match i64_of(member(data, "cid"@)) {
        Some(cid) => cid,
        None => number_or_zero(i64_of(member(element(member(data, "pages"@), 0), "cid"@))),
    }
}

/// The record of an item by its metadata, without a stream.
pub open spec fn view_record(data: Option<Json>) -> VideoParseInfoView {
    let owner = member(data, "owner"@);
    VideoParseInfoView::plain(
        AuthorView {
            uid: decimal_text(number_or_zero(i64_of(member(owner, "mid"@))) as int),
            name: text_or_empty(member(owner, "name"@)),
            avatar: text_or_empty(member(owner, "face"@)),
        },
        text_or_empty(member(data, "title"@)),
        Seq::empty(),
        text_or_empty(member(data, "pic"@)),
        Seq::empty(),
        PLATFORM@,
    )
}

/// What follows the metadata of `bvid`: the platform's code must be 0.
pub open spec fn after_view(bvid: Seq<char>, event: HttpEventView) -> StepView {
    match event {
        HttpEventView::Unreachable => StepView::Failed(ErrorView::UpstreamUnreachable),
        HttpEventView::Response { status, location, body } => match json_parse(body) {
            Some(json) => if i64_of(member(Some(json), "code"@)) == Some(0i64) {
                let data = member(Some(json), "data"@);
                StepView::Fetch(
                    play_request(bvid, cid_of(data)),
                    PendingView::BilibiliPlay { record: view_record(data) },
                )
            } else {
                StepView::Failed(ErrorView::ContentNotFound)
            },
            None => StepView::Failed(ErrorView::UpstreamFormatChanged),
        },
    }
}

/// The address of the first stream that the answer of the stream API lists.
pub open spec fn stream_url(body: Seq<char>) -> Seq<char> {
    text_or_empty(
        member(element(member(member(json_parse(body), "data"@), "durl"@), 0), "url"@),
    )
}

/// What follows the answer of the stream API: an item without a stream
/// fails the resolution.
pub open spec fn after_play(record: VideoParseInfoView, event: HttpEventView) -> StepView {
    match event {
        HttpEventView::Unreachable => StepView::Failed(ErrorView::UpstreamUnreachable),
        HttpEventView::Response { status, location, body } => if json_parse(body) is None
            || stream_url(body).len() == 0 {
            StepView::Failed(ErrorView::UpstreamFormatChanged)
        } else {
            StepView::Done(
                (VideoParseInfoView { video_url: stream_url(body), ..record }).normalized(),
            )
        },
    }
}

impl Bilibili {
    /// The identifier in the address `full_url` of an item.
    pub fn get_bvid_from_url(full_url: &str) -> (r: Result<String, ResolutionError>)
        ensures
            match r {
                Ok(bvid) => bvid_of(full_url@) == Some(bvid@),
                Err(e) => bvid_of(full_url@) is None && e@ == ErrorView::InvalidShareInput,
            },
    {
        let parts = match UrlParts::parse(full_url) {
            Some(p) => p,
            None => {
                return Err(ResolutionError::InvalidShareInput);
            },
        };
        let path = chars_of(parts.path.as_str());
        if path.len() == 0 || path[0] != '/' {
            return Err(ResolutionError::InvalidShareInput);
        }
        let rest = slice_of(path.as_slice(), 1, path.len());
        let segments = split_at_char(rest.as_slice(), '/');
        let ghost pieces = split(rest@, '/');
        let video = chars_of("video");
        let bv = chars_of("BV");
        let n = segments.len();
        let ghost found = match after_video_segment(pieces, 0) {
            Some(bvid) => Some(bvid),
            None => first_identifier(pieces, 0),
        };
        let mut i: usize = 0;
        while i < n - 1
            invariant
                i <= n - 1,
                n == segments@.len(),
                n >= 1,
                bvid_of(full_url@) == found,
                found == match after_video_segment(pieces, 0) {
                    Some(bvid) => Some(bvid),
                    None => first_identifier(pieces, 0),
                },
                segments@.len() == pieces.len(),
                forall|k: int| 0 <= k < segments@.len() ==> (#[trigger] segments@[k])@ == pieces[k],
                video@ == "video"@,
                bv@ == "BV"@,
                after_video_segment(pieces, 0) == after_video_segment(pieces, i as int),
            decreases n - i,
        {
            if same(segments[i].as_slice(), video.as_slice()) && begins_with(
                segments[i + 1].as_slice(),
                bv.as_slice(),
            ) {
                return Ok(string_of(segments[i + 1].as_slice()));
            }
            i += 1;
        }
        let mut j: usize = 0;
        while j < segments.len()
            invariant
                j <= segments@.len(),
                bvid_of(full_url@) == found,
                found == match after_video_segment(pieces, 0) {
                    Some(bvid) => Some(bvid),
                    None => first_identifier(pieces, 0),
                },
                segments@.len() == pieces.len(),
                forall|k: int| 0 <= k < segments@.len() ==> (#[trigger] segments@[k])@ == pieces[k],
                bv@ == "BV"@,
                after_video_segment(pieces, 0) is None,
                first_identifier(pieces, 0) == first_identifier(pieces, j as int),
            decreases segments@.len() - j,
        {
            if begins_with(segments[j].as_slice(), bv.as_slice()) {
                return Ok(string_of(segments[j].as_slice()));
            }
            j += 1;
        }
        Err(ResolutionError::InvalidShareInput)
    }

    /// The request for the metadata of the item that `address` names.
    fn view(address: &str) -> (step: Step)
        ensures
            step@ == to_view(bvid_of(address@)),
    {
        match Self::get_bvid_from_url(address) {
            Ok(bvid) => Step::Fetch(
                HttpRequest::get(str_concat(VIEW_API, bvid.as_str())).header(
                    "User-Agent",
                    BILI_USER_AGENT,
                ),
                Pending::BilibiliView { bvid },
            ),
            Err(e) => Step::Failed(e),
        }
    }

    /// The first step of resolving a share text of the platform.
    pub fn parse_share_url(share_url: &str) -> (step: Step)
        ensures
            step@ == started(share_url@),
            step@.is_exclusive(),
    {
        let url_str = link_of(share_url);
        if str_contains(url_str.as_str(), "b23.tv") {
            let url = if str_starts_with(url_str.as_str(), "http") {
                url_str
            } else {
                str_concat("https://", url_str.as_str())
            };
            Step::Fetch(probe_request(url, BILI_USER_AGENT), Pending::BilibiliShort)
        } else {
            Self::view(url_str.as_str())
        }
    }

    /// What follows the answer of a short link.
    pub fn get_bvid_from_short_url(event: &HttpEvent) -> (step: Step)
        ensures
            step@ == after_short(event@),
            step@.is_exclusive(),
    {
        match event {
            HttpEvent::Unreachable => Step::Failed(ResolutionError::UpstreamUnreachable),
            _ => match resolve_redirect(event) {
                Ok(location) => Self::view(location.as_str()),
                Err(e) => Step::Failed(e),
            },
        }
    }

    /// `o`, or 0 where it is no number.
    fn or_zero(o: Option<i64>) -> (n: i64)
        ensures
            n == number_or_zero(o),
    {
        match o {
            Some(n) => n,
            None => 0,
        }
    }

    /// The record of an item by the metadata in `answer`, the whole answer
    /// of the metadata call; the stream is still to come.
    pub fn record_of_view(answer: &Json) -> (r: VideoParseInfo)
        ensures
            r@ == view_record(member(Some(*answer), "data"@)),
            r@.is_exclusive(),
    {
        let data = get(Some(answer), "data");
        let owner = get(data, "owner");
        let author = Author {
            uid: decimal_string(Self::or_zero(as_i64(get(owner, "mid")))),
            name: string_or_empty(get(owner, "name")),
            avatar: string_or_empty(get(owner, "face")),
        };
        let images: Vec<ImgInfo> = Vec::new();
        assert(images_view(images@) =~= Seq::empty());
        VideoParseInfo::plain(
            author,
            string_or_empty(get(data, "title")),
            String::new(),
            string_or_empty(get(data, "pic")),
            images,
            PLATFORM,
        )
    }

    /// What follows the metadata of `bvid`.
    pub fn parse_view(bvid: &str, event: &HttpEvent) -> (step: Step)
        ensures
            step@ == after_view(bvid@, event@),
            step@.is_exclusive(),
    {
        let body = match event {
            HttpEvent::Unreachable => {
                return Step::Failed(ResolutionError::UpstreamUnreachable);
            },
            HttpEvent::Response { status, location, body } => body,
        };
        let json = match Json::parse(body.as_str()) {
            Some(json) => json,
            None => {
                return Step::Failed(ResolutionError::UpstreamFormatChanged);
            },
        };
        match as_i64(get(Some(&json), "code")) {
            Some(0) => {},
            _ => {
                return Step::Failed(ResolutionError::ContentNotFound);
            },
        }
        let data = get(Some(&json), "data");
        let cid = match as_i64(get(data, "cid")) {
            Some(cid) => cid,
            None => Self::or_zero(as_i64(get(at(get(data, "pages"), 0), "cid"))),
        };
        let record = Self::record_of_view(&json);
        let mut url: Vec<char> = Vec::new();
        append_str(
            &mut url,
            "https://api.bilibili.com/x/player/playurl?otype=json&fnver=0&fnval=0&qn=80&bvid=",
        );
        append_str(&mut url, bvid);
        append_str(&mut url, "&cid=");
        append_str(&mut url, decimal_string(cid).as_str());
        append_str(&mut url, "&platform=html5");
        let request = HttpRequest::get(string_of(url.as_slice())).header(
            "User-Agent",
            BILI_USER_AGENT,
        ).header("Referer", "https://www.bilibili.com/");
        Step::Fetch(request, Pending::BilibiliPlay { record })
    }

    /// What follows the answer of the stream API for the item that
    /// `record` describes.
    pub fn parse_play(record: VideoParseInfo, event: &HttpEvent) -> (step: Step)
        ensures
            step@ == after_play(record@, event@),
            step@.is_exclusive(),
    {
        let body = match event {
            HttpEvent::Unreachable => {
                return Step::Failed(ResolutionError::UpstreamUnreachable);
            },
            HttpEvent::Response { status, location, body } => body,
        };
        let json = match Json::parse(body.as_str()) {
            Some(json) => json,
            None => {
                return Step::Failed(ResolutionError::UpstreamFormatChanged);
            },
        };
        let video_url = string_or_empty(
            get(at(get(get(Some(&json), "data"), "durl"), 0), "url"),
        );
        if video_url.as_str().is_empty() {
            return Step::Failed(ResolutionError::UpstreamFormatChanged);
        }
        let mut record = record;
        record.video_url = video_url;
        Step::Done(record.normalize())
    }
}

} // verus!
