//! Gallery and note platform: one page holds the whole note in its
//! embedded state.

use vstd::prelude::*;

use crate::embedded::{extract, extracted, SCRIPT_END};
use crate::error::{ErrorView, ResolutionError};
use crate::json::{
    get, items, items_of, member, members, members_of, or, either, plain, string_or_empty, text,
    text_of, text_or_empty, Json,
};
use crate::models::{
    images_view, lemma_images_view_push, lemma_previews_view_push, previews_view, Author,
    AuthorView, ImgInfo, ImgInfoView, VideoParseInfo, VideoParseInfoView, VideoPreview,
    VideoPreviewView,
};
use crate::parser::utils::{link_of, share_link};
use crate::protocol::{
    HttpEvent, HttpEventView, HttpRequest, HttpRequestView, Pending, PendingView, Step, StepView,
};
use crate::text::{
    chars_of, prefix, replaced, str_concat, str_replace, string_of, take_chars,
};

verus! {

/// The adapter of the platform.
pub struct Xiaohongshu;

/// The name that records of this platform carry.
pub const PLATFORM: &'static str = "xhs";

/// The variable that a page assigns its state to.
pub const INITIAL_STATE: &'static str = "window.__INITIAL_STATE__";

/// The `User-Agent` of every request to the platform.
pub const XHS_USER_AGENT: &'static str =
    "Mozilla/5.0 (Windows NT 10.0; Win64; x64) AppleWebKit/537.36 (KHTML, like Gecko) Chrome/121.0.0.0 Safari/537.36";

/// The session that every request presents.
pub const XHS_COOKIE: &'static str = "abRequestId=0000; webId=0000; gibberish=0000;";

/// The name of an author whose note gives none.
pub const UNKNOWN_AUTHOR: &'static str = "Unknown";

/// How many characters of the description stand in for a missing title.
pub const TITLE_LENGTH: usize = 30;

/// The request for the page at `url`.
pub open spec fn page_request(url: Seq<char>) -> HttpRequestView {
    HttpRequestView::get(url).header("User-Agent"@, XHS_USER_AGENT@).header("Cookie"@, XHS_COOKIE@)
}

/// An address with the secure scheme in place of the plain one.
pub open spec fn secured(url: Seq<char>) -> Seq<char> {
    replaced(url, "http://"@, "https://"@)
}

/// The note in the state of a page: the member `note` of the member `note`,
/// or, where the state keeps its notes in a map by identifier, the member
/// `note` of the first entry of that map.
pub open spec fn note_of(state: Json) -> Option<Json> {
    let holder = member(Some(state), "note"@);
    match member(holder, "note"@) {
        Some(note) => Some(note),
        None => match members_of(member(holder, "noteDetailMap"@)) {
            Some(entries) => if entries.len() > 0 {
                member(Some(entries[0].1), "note"@)
            } else {
                None
            },
            None => None,
        },
    }
}

/// The image that one entry of the image list describes.
pub open spec fn image_of(img: Json) -> Option<ImgInfoView> {
    let url = secured(text_or_empty(member(Some(img), "urlDefault"@)));
    if url.len() > 0 {
        Some(ImgInfoView { url, live_photo_url: None })
    } else {
        None
    }
}

/// The images of the first `n` entries of an image list.
pub open spec fn images_until(imgs: Seq<Json>, n: int) -> Seq<ImgInfoView>
    decreases n,
{
    if n <= 0 {
        Seq::empty()
    } else {
        match image_of(imgs[n - 1]) {
            Some(image) => images_until(imgs, n - 1).push(image),
            None => images_until(imgs, n - 1),
        }
    }
}

/// Whether a note is a video.
pub open spec fn is_video(note: Json) -> bool {
    text_of(member(Some(note), "type"@)) == Some("video"@)
}

/// The images of a note that is no video.
pub open spec fn note_images(note: Json) -> Seq<ImgInfoView> {
    if is_video(note) {
        Seq::empty()
    } else {
        match items_of(member(Some(note), "imageList"@)) {
            Some(imgs) => images_until(imgs, imgs.len() as int),
            None => Seq::empty(),
        }
    }
}

/// The video of a note that is one: the master address of its first H.264
/// stream.
pub open spec fn note_video_url(note: Json) -> Seq<char> {
    if is_video(note) {
        match items_of(
            member(member(member(member(Some(note), "video"@), "media"@), "stream"@), "h264"@),
        ) {
            Some(streams) => if streams.len() > 0 {
                secured(text_or_empty(member(Some(streams[0]), "masterUrl"@)))
            } else {
                Seq::empty()
            },
            None => Seq::empty(),
        }
    } else {
        Seq::empty()
    }
}

/// The title of a note: its own, or the start of its description.
pub open spec fn note_title(note: Json) -> Seq<char> {
    let title = text_or_empty(member(Some(note), "title"@));
    if title.len() == 0 {
        prefix(text_or_empty(member(Some(note), "desc"@)), TITLE_LENGTH as int)
    } else {
        title
    }
}

/// The cover of a note: its first image.
pub open spec fn note_cover(note: Json) -> Seq<char> {
    match items_of(member(Some(note), "imageList"@)) {
        Some(imgs) => if imgs.len() > 0 {
            secured(text_or_empty(member(Some(imgs[0]), "urlDefault"@)))
        } else {
            Seq::empty()
        },
        None => Seq::empty(),
    }
}

/// The record of a note, which must name its user.
pub open spec fn note_record(note: Json) -> Option<VideoParseInfoView> {
    let user = member(Some(note), "user"@);
    if user is Some {
        Some(
            VideoParseInfoView::plain(
                AuthorView {
                    uid: text_or_empty(member(user, "userId"@)),
                    name: match text_of(member(user, "nickname"@)) {
                        Some(name) => name,
                        None => UNKNOWN_AUTHOR@,
                    },
                    avatar: text_or_empty(member(user, "avatar"@)),
                },
                note_title(note),
                note_video_url(note),
                note_cover(note),
                note_images(note),
                PLATFORM@,
            ).normalized(),
        )
    } else {
        None
    }
}

/// What the page of a note resolves to.
pub open spec fn page_record(html: Seq<char>) -> Result<VideoParseInfoView, ErrorView> {
    match extracted(html, INITIAL_STATE@, SCRIPT_END@) {
        Ok(state) => match note_of(state) {
            Some(note) => match note_record(note) {
                Some(record) => Ok(record),
                None => Err(ErrorView::UpstreamFormatChanged),
            },
            None => Err(ErrorView::UpstreamFormatChanged),
        },
        Err(e) => Err(e),
    }
}

/// Where a resolution starts: the page of the note is asked for.
pub open spec fn started(raw: Seq<char>) -> StepView {
    StepView::Fetch(page_request(share_link(raw)), PendingView::XhsPage)
}

/// What follows the page of the note.
pub open spec fn after_page(event: HttpEventView) -> StepView {
    match event {
        HttpEventView::Unreachable => StepView::Failed(ErrorView::UpstreamUnreachable),
        HttpEventView::Response { status, location, body } => match page_record(body) {
            Ok(record) => StepView::Done(record),
            Err(e) => StepView::Failed(e),
        },
    }
}

/// The address of the profile page of a user.
pub open spec fn profile_url(user_id: Seq<char>) -> Seq<char> {
    "https://www.xiaohongshu.com/user/profile/"@ + user_id
}

/// The preview that one entry of a list of notes gives, where it has an
/// identifier.
pub open spec fn preview_of(item: Json) -> Option<VideoPreviewView> {
    let cover = member(Some(item), "cover"@);
    if text_or_empty(member(Some(item), "noteId"@)).len() > 0 {
        Some(
            VideoPreviewView {
                id: text_or_empty(member(Some(item), "noteId"@)),
                title: text_or_empty(member(Some(item), "displayTitle"@)),
                cover_url: secured(
                    text_or_empty(or(member(cover, "urlDefault"@), member(cover, "url"@))),
                ),
                video_url: Seq::empty(),
                is_video: is_video(item),
                platform: PLATFORM@,
            },
        )
    } else {
        None
    }
}

/// The previews of the first `n` entries of a list of notes.
pub open spec fn previews_until(list: Seq<Json>, n: int) -> Seq<VideoPreviewView>
    decreases n,
{
    if n <= 0 {
        Seq::empty()
    } else {
        match preview_of(list[n - 1]) {
            Some(p) => previews_until(list, n - 1).push(p),
            None => previews_until(list, n - 1),
        }
    }
}

/// The list of notes in the state of a profile page: the member `notes` of
/// the user where it is a list, else the member `feed`.
pub open spec fn listed_notes(state: Json) -> Option<Seq<Json>> {
    let user = member(Some(state), "user"@);
    match items_of(member(user, "notes"@)) {
        Some(list) => Some(list),
        None => items_of(member(user, "feed"@)),
    }
}

/// The previews that a profile page lists.
pub open spec fn page_previews(html: Seq<char>) -> Result<Seq<VideoPreviewView>, ErrorView> {
    match extracted(html, INITIAL_STATE@, SCRIPT_END@) {
        Ok(state) => match listed_notes(state) {
            Some(list) => Ok(previews_until(list, list.len() as int)),
            None => Ok(Seq::empty()),
        },
        Err(e) => Err(e),
    }
}

impl Xiaohongshu {
    /// The first step of resolving a share text of the platform.
    pub fn parse_share_url(share_url: &str) -> (step: Step)
        ensures
            step@ == started(share_url@),
            step@.is_exclusive(),
    {
        let url = link_of(share_url);
        Step::Fetch(
            HttpRequest::get(url).header("User-Agent", XHS_USER_AGENT).header("Cookie", XHS_COOKIE),
            Pending::XhsPage,
        )
    }

    /// The note in the state `state` of a page.
    pub fn find_note<'a>(state: &'a Json) -> (r: Option<&'a Json>)
        ensures
            plain(r) == note_of(*state),
    {
        let holder = get(Some(state), "note");
        match get(holder, "note") {
            Some(note) => Some(note),
            None => match members(get(holder, "noteDetailMap")) {
                Some(entries) => {
                    if entries.len() > 0 {
                        get(Some(&entries[0].1), "note")
                    } else {
                        None
                    }
                },
                None => None,
            },
        }
    }

    /// Whether `note` is a video.
    fn video(note: &Json) -> (b: bool)
        ensures
            b == is_video(*note),
    {
        match text(get(Some(note), "type")) {
            Some(kind) => {
                let video = "video".to_owned();
                *kind == video
            },
            None => false,
        }
    }

    /// The text of `o` with the secure scheme.
    fn secure(o: Option<&Json>) -> (r: String)
        ensures
            r@ == secured(text_or_empty(plain(o))),
    {
        let url = string_or_empty(o);
        str_replace(url.as_str(), "http://", "https://")
    }

    /// The images of the list `imgs`.
    fn images_of(imgs: &Vec<Json>) -> (images: Vec<ImgInfo>)
        ensures
            images_view(images@) == images_until(imgs@, imgs@.len() as int),
    {
        let mut images: Vec<ImgInfo> = Vec::new();
        let mut i: usize = 0;
        while i < imgs.len()
            invariant
                i <= imgs@.len(),
                images_view(images@) == images_until(imgs@, i as int),
            decreases imgs@.len() - i,
        {
            let url = Self::secure(get(Some(&imgs[i]), "urlDefault"));
            if !url.as_str().is_empty() {
                let image = ImgInfo { url, live_photo_url: None };
                proof {
                    lemma_images_view_push(images@, image);
                }
                images.push(image);
            }
            i += 1;
        }
        images
    }

    /// The record of `note`, which must name its user.
    pub fn record_of_note(note: &Json) -> (r: Option<VideoParseInfo>)
        ensures
            match r {
                Some(record) => note_record(*note) == Some(record@) && record@.is_exclusive(),
                None => note_record(*note) is None,
            },
    {
        let node = Some(note);
        let user = get(node, "user");
        if user.is_none() {
            return None;
        }
        let title = string_or_empty(get(node, "title"));
        let full_title = if title.as_str().is_empty() {
            let desc = string_or_empty(get(node, "desc"));
            let shown = take_chars(chars_of(desc.as_str()).as_slice(), TITLE_LENGTH);
            string_of(shown.as_slice())
        } else {
            title
        };
        let author = Author {
            uid: string_or_empty(get(user, "userId")),
            name: match text(get(user, "nickname")) {
                Some(name) => name.clone(),
                None => UNKNOWN_AUTHOR.to_owned(),
            },
            avatar: string_or_empty(get(user, "avatar")),
        };
        let image_list = items(get(node, "imageList"));
        let cover_url = match image_list {
            Some(imgs) => {
                if imgs.len() > 0 {
                    Self::secure(get(Some(&imgs[0]), "urlDefault"))
                } else {
                    String::new()
                }
            },
            None => String::new(),
        };
        let mut video_url = String::new();
        let mut images: Vec<ImgInfo> = Vec::new();
        assert(images_view(images@) =~= Seq::empty());
        if Self::video(note) {
            match items(get(get(get(get(node, "video"), "media"), "stream"), "h264")) {
                Some(streams) => {
                    if streams.len() > 0 {
                        video_url = Self::secure(get(Some(&streams[0]), "masterUrl"));
                    }
                },
                None => {},
            }
        } else {
            match image_list {
                Some(imgs) => {
                    images = Self::images_of(imgs);
                },
                None => {},
            }
        }
        Some(
            VideoParseInfo::plain(
                author,
                full_title,
                video_url,
                cover_url,
                images,
                PLATFORM,
            ).normalize(),
        )
    }

    /// The record that the page `html` of a note describes.
    pub fn parse_html(html: &str) -> (r: Result<VideoParseInfo, ResolutionError>)
        ensures
            match r {
                Ok(record) => page_record(html@) == Ok::<VideoParseInfoView, ErrorView>(record@)
                    && record@.is_exclusive(),
                Err(e) => page_record(html@) == Err::<VideoParseInfoView, ErrorView>(e@),
            },
    {
        let state = match extract(html, INITIAL_STATE) {
            Ok(state) => state,
            Err(e) => {
                return Err(e);
            },
        };
        match Self::find_note(&state) {
            Some(note) => match Self::record_of_note(note) {
                Some(record) => Ok(record),
                None => Err(ResolutionError::UpstreamFormatChanged),
            },
            None => Err(ResolutionError::UpstreamFormatChanged),
        }
    }

    /// What follows the page of the note.
    pub fn parse_page(event: &HttpEvent) -> (step: Step)
        ensures
            step@ == after_page(event@),
            step@.is_exclusive(),
    {
        match event {
            HttpEvent::Unreachable => Step::Failed(ResolutionError::UpstreamUnreachable),
            HttpEvent::Response { status, location, body } => match Self::parse_html(body.as_str()) {
                Ok(record) => Step::Done(record),
                Err(e) => Step::Failed(e),
            },
        }
    }

    /// The request for the profile page of the user `user_id`, which lists
    /// the user's notes.
    pub fn fetch_posts(user_id: &str) -> (r: HttpRequest)
        ensures
            r@ == page_request(profile_url(user_id@)),
    {
        let url = str_concat("https://www.xiaohongshu.com/user/profile/", user_id);
        HttpRequest::get(url).header("User-Agent", XHS_USER_AGENT).header("Cookie", XHS_COOKIE)
    }

    /// The previews of the notes that the profile page `html` lists.
    pub fn parse_posts(html: &str) -> (r: Result<Vec<VideoPreview>, ResolutionError>)
        ensures
            match r {
                Ok(previews) => page_previews(html@) == Ok::<Seq<VideoPreviewView>, ErrorView>(
                    previews_view(previews@),
                ),
                Err(e) => page_previews(html@) == Err::<Seq<VideoPreviewView>, ErrorView>(e@),
            },
    {
        let state = match extract(html, INITIAL_STATE) {
            Ok(state) => state,
            Err(e) => {
                return Err(e);
            },
        };
        let mut previews: Vec<VideoPreview> = Vec::new();
        assert(previews_view(previews@) =~= Seq::empty());
        let user = get(Some(&state), "user");
        let list = match items(get(user, "notes")) {
            Some(list) => list,
            None => match items(get(user, "feed")) {
                Some(list) => list,
                None => {
                    return Ok(previews);
                },
            },
        };
        let mut i: usize = 0;
        while i < list.len()
            invariant
                i <= list@.len(),
                previews_view(previews@) == previews_until(list@, i as int),
            decreases list@.len() - i,
        {
            let item = Some(&list[i]);
            let id = string_or_empty(get(item, "noteId"));
            if !id.as_str().is_empty() {
                let cover = get(item, "cover");
                let preview = VideoPreview {
                    id,
                    title: string_or_empty(get(item, "displayTitle")),
                    cover_url: Self::secure(either(get(cover, "urlDefault"), get(cover, "url"))),
                    video_url: String::new(),
                    is_video: Self::video(&list[i]),
                    platform: PLATFORM.to_owned(),
                };
                proof {
                    lemma_previews_view_push(previews@, preview);
                }
                previews.push(preview);
            }
            i += 1;
        }
        Ok(previews)
    }
}

} // verus!
