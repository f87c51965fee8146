//! Long-form video platform: the metadata of an item carries a token that
//! opens the list of its streams.

use base64::Engine;
use vstd::prelude::*;
use vstd::utf8::{decode_utf8, valid_utf8};

use crate::error::{ErrorView, ResolutionError};
use crate::json::{
    as_bool, as_i64, bool_of, get, i64_of, items, items_of, json_model, json_parse, json_text_at,
    json_value, member, members, members_of, string_or_empty, text, text_of, text_or_empty,
    Document, Json,
};
use crate::link::{last_piece, last_piece_of};
use crate::models::{
    images_view, lemma_qualities_view_push, qualities_view, Author, AuthorView, ImgInfo,
    VideoParseInfo, VideoParseInfoView, VideoQuality, VideoQualityView,
};
use crate::parser::utils::{
    is_numeric_id, link_of, numeric_id, share_link, DEFAULT_USER_AGENT,
};
use crate::protocol::{
    is_redirection, probe, probe_request, HttpEvent, HttpEventView, HttpRequest, HttpRequestView,
    Location, LocationView, Pending, PendingView, Step, StepView,
};
use crate::text::{
    append_str, chars_of, run_end, skip_run, slice_of, str_concat, string_of, trim_end,
    trimmed_end, CharClass,
};

verus! {

/// The adapter of the platform.
pub struct XiGua;

/// The name that records of this platform carry.
pub const PLATFORM: &'static str = "xigua";

/// The `User-Agent` of requests for the metadata.
pub const INFO_USER_AGENT: &'static str =
    "Mozilla/5.0 (Windows NT 10.0; Win64; x64) AppleWebKit/537.36 (KHTML, like Gecko) Chrome/120.0.0.0 Safari/537.36";

/// The `User-Agent` of requests for the streams.
pub const VOD_USER_AGENT: &'static str = "Mozilla/5.0";

/// The pointer to the identifier of the publisher in the metadata.
pub const USER_ID_POINTER: &'static str = "/data/media_user/user_id";

/// The bytes that a text in standard base64 with padding stands for.
pub uninterp spec fn base64_decoded(text: Seq<char>) -> Option<Seq<u8>>;

/// Calls `Engine::decode` of the `base64` crate on its engine `STANDARD`.
/// The contract names the decoded bytes and claims that the result is
/// those bytes, `None` where the text is refused; nothing is claimed about
/// the bytes themselves.
#[verifier::external_body]
fn base64_decode(text: &str) -> (r: Option<Vec<u8>>)
    ensures
        match r {
            Some(bytes) => base64_decoded(text@) == Some(bytes@),
            None => base64_decoded(text@) is None,
        },
{
    match base64::engine::general_purpose::STANDARD.decode(text) {
        Ok(bytes) => Some(bytes),
        Err(_) => None,
    }
}

/// `String::from_utf8` of std: the text that the bytes encode in UTF-8,
/// `None` where they are no UTF-8.
#[verifier::external_body]
fn utf8_string(bytes: Vec<u8>) -> (r: Option<String>)
    ensures
        match r {
            Some(s) => valid_utf8(bytes@) && s@ == decode_utf8(bytes@),
            None => !valid_utf8(bytes@),
        },
{
    match String::from_utf8(bytes) {
        Ok(s) => Some(s),
        Err(_) => None,
    }
}

/// The item identifier in an address: the last piece of its path, the
/// query and slashes at the end left aside.
pub open spec fn item_id_of(address: Seq<char>) -> Seq<char> {
    let path = address.subrange(0, run_end(address, CharClass::Except('?'), 0));
    last_piece(trimmed_end(path, CharClass::Only('/')), '/')
}

/// The address of the metadata of one item.
pub open spec fn info_url(item_id: Seq<char>) -> Seq<char> {
    "https://m.toutiao.com/i"@ + item_id + "/info/"@
}

/// The request for the metadata of one item.
pub open spec fn info_request(item_id: Seq<char>) -> HttpRequestView {
    HttpRequestView::get(info_url(item_id)).header("User-Agent"@, INFO_USER_AGENT@)
}

/// The request for the streams that `token` opens.
pub open spec fn vod_request(token: Seq<char>) -> HttpRequestView {
    HttpRequestView::get("https://vod.bytedanceapi.com/?"@ + token).header(
        "User-Agent"@,
        VOD_USER_AGENT@,
    )
}

/// The request for the metadata of the item that `address` names; the
/// identifier of an item is a number.
pub open spec fn to_info(address: Seq<char>) -> StepView {
    if is_numeric_id(item_id_of(address)) {
        StepView::Fetch(info_request(item_id_of(address)), PendingView::XiguaInfo)
    } else {
        StepView::Failed(ErrorView::InvalidShareInput)
    }
}

/// Where a resolution starts: the link is asked where it leads.
pub open spec fn started(raw: Seq<char>) -> StepView {
    StepView::Fetch(
        probe(share_link(raw), DEFAULT_USER_AGENT@),
        PendingView::XiguaRedirect { url: share_link(raw) },
    )
}

/// What follows the answer of the link `url`: the item is the one that the
/// redirection names, or, where the link redirects nowhere, the one that
/// the link itself names.
pub open spec fn after_redirect(url: Seq<char>, event: HttpEventView) -> StepView {
    match event {
        HttpEventView::Unreachable => StepView::Failed(ErrorView::UpstreamUnreachable),
        HttpEventView::Response { status, location, body } => if is_redirection(status) {
            match location {
                LocationView::Target(target) => to_info(target),
                _ => StepView::Failed(ErrorView::NoRedirectLocation),
            }
        } else {
            to_info(url)
        },
    }
}

/// The identifier of the publisher as the metadata `value` writes it, in
/// JSON.
pub open spec fn written_user_id(value: serde_json::Value) -> Seq<char> {
    match json_text_at(value, USER_ID_POINTER@) {
        Some(t) => t,
        None => Seq::empty(),
    }
}

/// The publisher of the item `data` of the metadata `value`: the user of
/// the item, or only the name of its source where there is no user. The
/// identifier of the user is its text where it is one, else what the
/// metadata writes for it, a number as a rule.
pub open spec fn info_author(value: serde_json::Value, data: Json) -> AuthorView {
    let source = text_or_empty(member(Some(data), "detail_source"@));
    let user = member(Some(data), "media_user"@);
    if members_of(user) is Some {
        AuthorView {
            uid: match text_of(member(user, "user_id"@)) {
                Some(id) => id,
                None => if member(user, "user_id"@) is Some {
                    written_user_id(value)
                } else {
                    Seq::empty()
                },
            },
            name: match text_of(member(user, "screen_name"@)) {
                Some(name) => name,
                None => source,
            },
            avatar: text_or_empty(member(user, "avatar_url"@)),
        }
    } else {
        AuthorView { uid: Seq::empty(), name: source, avatar: Seq::empty() }
    }
}

/// The record of the item `data` of the metadata `value` by its metadata
/// alone, without any stream.
pub open spec fn info_record(value: serde_json::Value, data: Json) -> VideoParseInfoView {
    VideoParseInfoView::plain(
        info_author(value, data),
        text_or_empty(member(Some(data), "title"@)),
        Seq::empty(),
        text_or_empty(member(Some(data), "poster_url"@)),
        Seq::empty(),
        PLATFORM@,
    )
}

/// The token that opens the streams: the member `GetPlayInfoToken` of the
/// JSON document that the item's token holds in base64.
pub open spec fn play_token(data: Json) -> Option<Seq<char>> {
    match text_of(member(Some(data), "play_auth_token_v2"@)) {
        Some(encoded) => match base64_decoded(encoded) {
            Some(bytes) => if valid_utf8(bytes) {
                text_of(member(json_parse(decode_utf8(bytes)), "GetPlayInfoToken"@))
            } else {
                None
            },
            None => None,
        },
        None => None,
    }
}

/// What follows the metadata: the streams are asked for where the
/// metadata holds a token for them, else the record is handed out without
/// a video.
pub open spec fn after_info(event: HttpEventView) -> StepView {
    match event {
        HttpEventView::Unreachable => StepView::Failed(ErrorView::UpstreamUnreachable),
        HttpEventView::Response { status, location, body } => match json_value(body) {
            Some(value) => if bool_of(member(Some(json_model(value)), "success"@)) != Some(true) {
                StepView::Failed(ErrorView::ContentNotFound)
            } else {
                match member(Some(json_model(value)), "data"@) {
                    Some(data) => match play_token(data) {
                        Some(token) => StepView::Fetch(
                            vod_request(token),
                            PendingView::XiguaVod { record: info_record(value, data) },
                        ),
                        None => StepView::Done(info_record(value, data).normalized()),
                    },
                    None => StepView::Failed(ErrorView::UpstreamFormatChanged),
                }
            },
            None => StepView::Failed(ErrorView::UpstreamFormatChanged),
        },
    }
}

/// The height of a stream, 0 where it names none.
pub open spec fn height_of(info: Json) -> i64 {
    match i64_of(member(Some(info), "Height"@)) {
        Some(h) => h,
        None => 0,
    }
}

/// The position of the highest of the first `n` streams, the first of
/// those that are equally high.
pub open spec fn best_until(list: Seq<Json>, n: int) -> int
    decreases n,
{
    if n <= 1 {
        0
    } else {
        let b = best_until(list, n - 1);
        if height_of(list[n - 1]) > height_of(list[b]) {
            n - 1
        } else {
            b
        }
    }
}

/// The quality that one stream describes, where it has an address.
pub open spec fn quality_of(info: Json) -> Option<VideoQualityView> {
    if text_or_empty(member(Some(info), "MainPlayUrl"@)).len() > 0 {
        Some(
            VideoQualityView {
                quality: text_or_empty(member(Some(info), "Definition"@)),
                video_url: text_or_empty(member(Some(info), "MainPlayUrl"@)),
                size: None,
            },
        )
    } else {
        None
    }
}

/// The qualities of the first `n` streams.
pub open spec fn qualities_until(list: Seq<Json>, n: int) -> Seq<VideoQualityView>
    decreases n,
{
    if n <= 0 {
        Seq::empty()
    } else {
        match quality_of(list[n - 1]) {
            Some(q) => qualities_until(list, n - 1).push(q),
            None => qualities_until(list, n - 1),
        }
    }
}

/// The streams that the answer of the stream API lists.
pub open spec fn listed_streams(event: HttpEventView) -> Option<Seq<Json>> {
    match event {
        HttpEventView::Response { status, location, body } => items_of(
            member(member(member(json_parse(body), "Result"@), "Data"@), "PlayInfoList"@),
        ),
        HttpEventView::Unreachable => None,
    }
}

/// The record with the streams of `list`: every stream with an address is
/// an alternate quality, and the highest is the primary video.
pub open spec fn with_streams(record: VideoParseInfoView, list: Seq<Json>) -> VideoParseInfoView {
    VideoParseInfoView {
        video_url: if list.len() > 0 {
            text_or_empty(member(Some(list[best_until(list, list.len() as int)]), "MainPlayUrl"@))
        } else {
            Seq::empty()
        },
        video_qualities: qualities_until(list, list.len() as int),
        ..record
    }
}

/// What follows the answer of the stream API.
pub open spec fn after_vod(record: VideoParseInfoView, event: HttpEventView) -> StepView {
    match listed_streams(event) {
        Some(list) => StepView::Done(with_streams(record, list).normalized()),
        None => StepView::Done(record.normalized()),
    }
}

/// The stream that is taken as the primary video is as high as any, and
/// higher than every stream before it.
pub proof fn lemma_best_is_highest(list: Seq<Json>, n: int)
    requires
        1 <= n <= list.len(),
    ensures
        0 <= best_until(list, n) < n,
        forall|j: int|
            0 <= j < n ==> height_of(#[trigger] list[j]) <= height_of(list[best_until(list, n)]),
        forall|j: int|
            0 <= j < best_until(list, n) ==> height_of(#[trigger] list[j]) < height_of(
                list[best_until(list, n)],
            ),
    decreases n,
{
    if n > 1 {
        lemma_best_is_highest(list, n - 1);
    }
}

impl XiGua {
    /// The first step of resolving a share text of the platform.
    pub fn parse_share_url(share_url: &str) -> (step: Step)
        ensures
            step@ == started(share_url@),
            step@.is_exclusive(),
    {
        let url_str = link_of(share_url);
        Step::Fetch(
            probe_request(url_str.clone(), DEFAULT_USER_AGENT),
            Pending::XiguaRedirect { url: url_str },
        )
    }

    /// The item identifier in `address`.
    pub fn item_id(address: &str) -> (r: String)
        ensures
            r@ == item_id_of(address@),
    {
        let chars = chars_of(address);
        let end = skip_run(chars.as_slice(), CharClass::Except('?'), 0);
        let path = slice_of(chars.as_slice(), 0, end);
        let bare = trim_end(path.as_slice(), CharClass::Only('/'));
        let id = last_piece_of(bare.as_slice(), '/');
        string_of(id.as_slice())
    }

    /// The request for the metadata of the item that `address` names.
    fn info(address: &str) -> (step: Step)
        ensures
            step@ == to_info(address@),
    {
        let item_id = Self::item_id(address);
        if !numeric_id(chars_of(item_id.as_str()).as_slice()) {
            return Step::Failed(ResolutionError::InvalidShareInput);
        }
        let mut url: Vec<char> = Vec::new();
        append_str(&mut url, "https://m.toutiao.com/i");
        append_str(&mut url, item_id.as_str());
        append_str(&mut url, "/info/");
        Step::Fetch(
            HttpRequest::get(string_of(url.as_slice())).header("User-Agent", INFO_USER_AGENT),
            Pending::XiguaInfo,
        )
    }

    /// What follows the answer of the link `url`.
    pub fn parse_redirect(url: &str, event: &HttpEvent) -> (step: Step)
        ensures
            step@ == after_redirect(url@, event@),
            step@.is_exclusive(),
    {
        match event {
            HttpEvent::Unreachable => Step::Failed(ResolutionError::UpstreamUnreachable),
            HttpEvent::Response { status, location, body } => {
                if 300 <= *status && *status < 400 {
                    match location {
                        Location::Target(target) => Self::info(target.as_str()),
                        _ => Step::Failed(ResolutionError::NoRedirectLocation),
                    }
                } else {
                    Self::info(url)
                }
            },
        }
    }

    /// The token that opens the streams of the item `data`.
    pub fn token_of(data: &Json) -> (r: Option<String>)
        ensures
            match r {
                Some(token) => play_token(*data) == Some(token@),
                None => play_token(*data) is None,
            },
    {
        let encoded = match text(get(Some(data), "play_auth_token_v2")) {
            Some(encoded) => encoded,
            None => {
                return None;
            },
        };
        let bytes = match base64_decode(encoded.as_str()) {
            Some(bytes) => bytes,
            None => {
                return None;
            },
        };
        let token_str = match utf8_string(bytes) {
            Some(s) => s,
            None => {
                return None;
            },
        };
        let token_json = Json::parse(token_str.as_str());
        match text(get(token_json.as_ref(), "GetPlayInfoToken")) {
            Some(token) => Some(token.clone()),
            None => None,
        }
    }

    /// The publisher of the item `data` of the metadata `document`.
    fn author_of(document: &Document, data: &Json) -> (author: Author)
        ensures
            author@ == info_author(document.value(), *data),
    {
        let source = string_or_empty(get(Some(data), "detail_source"));
        let user = get(Some(data), "media_user");
        if members(user).is_some() {
            let uid = match text(get(user, "user_id")) {
                Some(id) => id.clone(),
                None => {
                    if get(user, "user_id").is_some() {
                        match document.text_at(USER_ID_POINTER) {
                            Some(t) => t,
                            None => String::new(),
                        }
                    } else {
                        String::new()
                    }
                },
            };
            let name = match text(get(user, "screen_name")) {
                Some(name) => name.clone(),
                None => source,
            };
            Author { uid, name, avatar: string_or_empty(get(user, "avatar_url")) }
        } else {
            Author { uid: String::new(), name: source, avatar: String::new() }
        }
    }

    /// The record of the item `data` of the metadata `document` by its
    /// metadata alone, without any stream.
    pub fn record_of_info(document: &Document, data: &Json) -> (r: VideoParseInfo)
        ensures
            r@ == info_record(document.value(), *data),
            r@.is_exclusive(),
    {
        let images: Vec<ImgInfo> = Vec::new();
        assert(images_view(images@) =~= Seq::empty());
        VideoParseInfo::plain(
            Self::author_of(document, data),
            string_or_empty(get(Some(data), "title")),
            String::new(),
            string_or_empty(get(Some(data), "poster_url")),
            images,
            PLATFORM,
        )
    }

    /// What follows the metadata of an item.
    pub fn parse_info(event: &HttpEvent) -> (step: Step)
        ensures
            step@ == after_info(event@),
            step@.is_exclusive(),
    {
        let body = match event {
            HttpEvent::Unreachable => {
                return Step::Failed(ResolutionError::UpstreamUnreachable);
            },
            HttpEvent::Response { status, location, body } => body,
        };
        let document = match Document::read(body.as_str()) {
            Some(document) => document,
            None => {
                return Step::Failed(ResolutionError::UpstreamFormatChanged);
            },
        };
        match as_bool(get(Some(document.root()), "success")) {
            Some(true) => {},
            _ => {
                return Step::Failed(ResolutionError::ContentNotFound);
            },
        }
        let data = match get(Some(document.root()), "data") {
            Some(data) => data,
            None => {
                return Step::Failed(ResolutionError::UpstreamFormatChanged);
            },
        };
        let record = Self::record_of_info(&document, data);
        match Self::token_of(data) {
            Some(token) => {
                let url = str_concat("https://vod.bytedanceapi.com/?", token.as_str());
                Step::Fetch(
                    HttpRequest::get(url).header("User-Agent", VOD_USER_AGENT),
                    Pending::XiguaVod { record },
                )
            },
            None => Step::Done(record.normalize()),
        }
    }

    /// The height of the stream `info`.
    fn height(info: &Json) -> (h: i64)
        ensures
            h == height_of(*info),
    {
        match as_i64(get(Some(info), "Height")) {
            Some(h) => h,
            None => 0,
        }
    }

    /// The position of the highest stream of `list`.
    pub fn best_of(list: &Vec<Json>) -> (best: usize)
        requires
            list@.len() > 0,
        ensures
            best == best_until(list@, list@.len() as int),
            best < list@.len(),
    {
        let mut best: usize = 0;
        let mut i: usize = 1;
        while i < list.len()
            invariant
                1 <= i <= list@.len(),
                best < i,
                best == best_until(list@, i as int),
            decreases list@.len() - i,
        {
            if Self::height(&list[i]) > Self::height(&list[best]) {
                best = i;
            }
            i += 1;
        }
        best
    }

    /// The alternate qualities that the streams of `list` give.
    pub fn qualities_of(list: &Vec<Json>) -> (qualities: Vec<VideoQuality>)
        ensures
            qualities_view(qualities@) == qualities_until(list@, list@.len() as int),
    {
        let mut qualities: Vec<VideoQuality> = Vec::new();
        let mut i: usize = 0;
        while i < list.len()
            invariant
                i <= list@.len(),
                qualities_view(qualities@) == qualities_until(list@, i as int),
            decreases list@.len() - i,
        {
            let info = Some(&list[i]);
            let main_play_url = string_or_empty(get(info, "MainPlayUrl"));
            if !main_play_url.as_str().is_empty() {
                let q = VideoQuality {
                    quality: string_or_empty(get(info, "Definition")),
                    video_url: main_play_url,
                    size: None,
                };
                proof {
                    lemma_qualities_view_push(qualities@, q);
                }
                qualities.push(q);
            }
            i += 1;
        }
        qualities
    }

    /// What follows the answer of the stream API for the item that
    /// `record` describes.
    pub fn parse_video_id(record: VideoParseInfo, event: &HttpEvent) -> (step: Step)
        ensures
            step@ == after_vod(record@, event@),
            step@.is_exclusive(),
    {
        let json = match event {
            HttpEvent::Response { status, location, body } => Json::parse(body.as_str()),
            HttpEvent::Unreachable => None,
        };
        match items(get(get(get(json.as_ref(), "Result"), "Data"), "PlayInfoList")) {
            Some(list) => {
                let mut record = record;
                record.video_qualities = Self::qualities_of(list);
                record.video_url = if list.len() > 0 {
                    string_or_empty(get(Some(&list[Self::best_of(list)]), "MainPlayUrl"))
                } else {
                    String::new()
                };
                Step::Done(record.normalize())
            },
            None => Step::Done(record.normalize()),
        }
    }
}

} // verus!
