//! Short-video platform that is resolved through its API alone: the share
//! link redirects to the item, and the item API describes it.

use vstd::prelude::*;

use crate::error::{ErrorView, ResolutionError};
use crate::json::{
    first, first_slot, get, items, items_of, json_parse, member, plain, string_or_empty, text,
    text_of, text_or_empty, Json,
};
use crate::link::{url_parse, UrlParts};
use crate::models::{
    images_view, lemma_images_view_push, Author, AuthorView, ImgInfo, ImgInfoView,
    VideoParseInfo, VideoParseInfoView,
};
use crate::parser::utils::{link_of, share_link, DEFAULT_USER_AGENT};
use crate::protocol::{
    probe, probe_request, redirect_target, resolve_redirect, HttpEvent, HttpEventView,
    HttpRequest, HttpRequestView, Pending, PendingView, Step, StepView,
};
use crate::text::{
    append_str, chars_of, string_of, strip_prefix, trim, trimmed, without_prefix, CharClass,
};

verus! {

/// The adapter of the platform.
pub struct PiPiXia;

/// The name that records of this platform carry.
pub const PLATFORM: &'static str = "pipixia";

/// The item identifier in a path: what follows the prefix of item pages,
/// `ppx/item/` or `item/`, slashes at either end left aside. The path of
/// an item page without an item names none.
pub open spec fn item_in_path(path: Seq<char>) -> Seq<char> {
    trimmed(
        without_prefix(
            without_prefix(trimmed(path, CharClass::Only('/')) + "/"@, "ppx/item/"@),
            "item/"@,
        ),
        CharClass::Only('/'),
    )
}

/// The item identifier in the address that a share link leads to.
pub open spec fn item_id_of(location: Seq<char>) -> Option<Seq<char>> {
    match url_parse(location) {
        Some(parts) => Some(item_in_path(parts.path@)),
        None => None,
    }
}

/// The address of the item API for one item.
pub open spec fn item_url(video_id: Seq<char>) -> Seq<char> {
    "https://api.pipix.com/bds/cell/cell_comment/?offset=0&cell_type=1&api_version=1&cell_id="@
        + video_id + "&ac=wifi&channel=huawei_1319_64&aid=1319&app_name=super"@
}

/// The request to the item API.
pub open spec fn item_request(video_id: Seq<char>) -> HttpRequestView {
    HttpRequestView::get(item_url(video_id)).header("User-Agent"@, DEFAULT_USER_AGENT@)
}

/// The address under `url_list` of a media node: `url` of what the token
/// `0` selects there.
pub open spec fn listed_url(node: Option<Json>, list: Seq<char>) -> Option<Json> {
    member(first_slot(member(node, list)), "url"@)
}

/// The image that one entry of the image list describes.
pub open spec fn image_of(img: Json) -> Option<ImgInfoView> {
    match text_of(listed_url(Some(img), "url_list"@)) {
        Some(url) => if url.len() > 0 {
            Some(ImgInfoView { url, live_photo_url: None })
        } else {
            None
        },
        None => None,
    }
}

/// The images of the first `n` entries of an image list.
pub open spec fn images_until(imgs: Seq<Json>, n: int) -> Seq<ImgInfoView>
    decreases n,
{
    if n <= 0 {
        Seq::empty()
    } else {
        match image_of(imgs[n - 1]) {
            Some(image) => images_until(imgs, n - 1).push(image),
            None => images_until(imgs, n - 1),
        }
    }
}

/// The images of an item.
pub open spec fn item_images(data: Json) -> Seq<ImgInfoView> {
    match items_of(member(member(Some(data), "note"@), "multi_image"@)) {
        Some(imgs) => images_until(imgs, imgs.len() as int),
        None => Seq::empty(),
    }
}

/// The high-quality video of a node that holds one.
pub open spec fn high_video(node: Option<Json>) -> Option<Json> {
    listed_url(member(member(node, "video"@), "video_high"@), "url_list"@)
}

/// The video that the author of the item posted in a comment: that of the
/// first comment at or after position `i` which is by the author and holds
/// a video.
pub open spec fn author_video_from(comments: Seq<Json>, author_id: Seq<char>, i: int) -> Option<
    Seq<char>,
>
    decreases comments.len() - i,
{
    if i < 0 || i >= comments.len() {
        None
    } else {
        let item = member(Some(comments[i]), "item"@);
        let by_author = text_or_empty(member(member(item, "author"@), "id"@)) == author_id;
        match text_of(high_video(item)) {
            Some(url) => if by_author && url.len() > 0 {
                Some(url)
            } else {
                author_video_from(comments, author_id, i + 1)
            },
            None => author_video_from(comments, author_id, i + 1),
        }
    }
}

/// The identifier of the author of an item.
pub open spec fn author_id(data: Json) -> Seq<char> {
    text_or_empty(member(member(Some(data), "author"@), "id"@))
}

/// The video of an item: the one that its author posted in a comment,
/// which carries no watermark, else the item's own.
pub open spec fn item_video_url(data: Json) -> Seq<char> {
    let own = text_or_empty(high_video(Some(data)));
    match items_of(member(Some(data), "comments"@)) {
        Some(comments) => match author_video_from(comments, author_id(data), 0) {
            Some(url) => url,
            None => own,
        },
        None => own,
    }
}

/// The record of an item.
pub open spec fn item_record(data: Json) -> VideoParseInfoView {
    let author = member(Some(data), "author"@);
    VideoParseInfoView::plain(
        AuthorView {
            uid: author_id(data),
            name: text_or_empty(member(author, "name"@)),
            avatar: text_or_empty(listed_url(member(author, "avatar"@), "download_list"@)),
        },
        text_or_empty(member(Some(data), "content"@)),
        item_video_url(data),
        text_or_empty(listed_url(member(Some(data), "cover"@), "url_list"@)),
        item_images(data),
        PLATFORM@,
    ).normalized()
}

/// The item that the answer of the item API describes.
pub open spec fn api_item(body: Seq<char>) -> Option<Json> {
    member(
        member(first_slot(member(member(json_parse(body), "data"@), "cell_comments"@)), "comment_info"@),
        "item"@,
    )
}

/// Where a resolution starts: the share link is asked where it leads.
pub open spec fn started(raw: Seq<char>) -> StepView {
    StepView::Fetch(probe(share_link(raw), DEFAULT_USER_AGENT@), PendingView::PipixiaRedirect)
}

/// What follows the answer of the share link.
pub open spec fn after_redirect(event: HttpEventView) -> StepView {
    match event {
        HttpEventView::Unreachable => StepView::Failed(ErrorView::UpstreamUnreachable),
        _ => match redirect_target(event) {
            Some(location) => match item_id_of(location) {
                Some(id) => if id.len() > 0 {
                    StepView::Fetch(item_request(id), PendingView::PipixiaItem)
                } else {
                    StepView::Failed(ErrorView::InvalidShareInput)
                },
                None => StepView::Failed(ErrorView::InvalidShareInput),
            },
            None => StepView::Failed(ErrorView::NoRedirectLocation),
        },
    }
}

/// What follows the answer of the item API.
pub open spec fn after_item(event: HttpEventView) -> StepView {
    match event {
        HttpEventView::Unreachable => StepView::Failed(ErrorView::UpstreamUnreachable),
        HttpEventView::Response { status, location, body } => match api_item(body) {
            Some(data) => StepView::Done(item_record(data)),
            None => StepView::Failed(ErrorView::UpstreamFormatChanged),
        },
    }
}

impl PiPiXia {
    /// The first step of resolving a share text of the platform.
    pub fn parse_share_url(share_url: &str) -> (step: Step)
        ensures
            step@ == started(share_url@),
            step@.is_exclusive(),
    {
        let url_str = link_of(share_url);
        Step::Fetch(probe_request(url_str, DEFAULT_USER_AGENT), Pending::PipixiaRedirect)
    }

    /// What follows the answer of the share link.
    pub fn parse_redirect(event: &HttpEvent) -> (step: Step)
        ensures
            step@ == after_redirect(event@),
            step@.is_exclusive(),
    {
        match event {
            HttpEvent::Unreachable => {
                return Step::Failed(ResolutionError::UpstreamUnreachable);
            },
            _ => {},
        }
        let location = match resolve_redirect(event) {
            Ok(location) => location,
            Err(e) => {
                return Step::Failed(e);
            },
        };
        let parts = match UrlParts::parse(location.as_str()) {
            Some(p) => p,
            None => {
                return Step::Failed(ResolutionError::InvalidShareInput);
            },
        };
        let id = Self::item_id(parts.path.as_str());
        if id.len() == 0 {
            return Step::Failed(ResolutionError::InvalidShareInput);
        }
        let mut url: Vec<char> = Vec::new();
        append_str(
            &mut url,
            "https://api.pipix.com/bds/cell/cell_comment/?offset=0&cell_type=1&api_version=1&cell_id=",
        );
        crate::text::append(&mut url, id.as_slice());
        append_str(&mut url, "&ac=wifi&channel=huawei_1319_64&aid=1319&app_name=super");
        let request = HttpRequest::get(string_of(url.as_slice())).header(
            "User-Agent",
            DEFAULT_USER_AGENT,
        );
        Step::Fetch(request, Pending::PipixiaItem)
    }

    /// The item identifier in `path`.
    pub fn item_id(path: &str) -> (id: Vec<char>)
        ensures
            id@ == item_in_path(path@),
    {
        let path = chars_of(path);
        let mut bare = trim(path.as_slice(), CharClass::Only('/'));
        append_str(&mut bare, "/");
        let rest = strip_prefix(bare.as_slice(), chars_of("ppx/item/").as_slice());
        let rest = strip_prefix(rest.as_slice(), chars_of("item/").as_slice());
        trim(rest.as_slice(), CharClass::Only('/'))
    }

    /// The images of the item `data`.
    fn images_of(data: &Json) -> (images: Vec<ImgInfo>)
        ensures
            images_view(images@) == item_images(*data),
    {
        let mut images: Vec<ImgInfo> = Vec::new();
        let imgs = match items(get(get(Some(data), "note"), "multi_image")) {
            Some(imgs) => imgs,
            None => {
                return images;
            },
        };
        let mut i: usize = 0;
        while i < imgs.len()
            invariant
                i <= imgs@.len(),
                images_view(images@) == images_until(imgs@, i as int),
            decreases imgs@.len() - i,
        {
            match text(get(first(get(Some(&imgs[i]), "url_list")), "url")) {
                Some(url) => {
                    if !url.as_str().is_empty() {
                        let image = ImgInfo { url: url.clone(), live_photo_url: None };
                        proof {
                            lemma_images_view_push(images@, image);
                        }
                        images.push(image);
                    }
                },
                None => {},
            }
            i += 1;
        }
        images
    }

    /// The video that the author `author_id` posted in one of `comments`.
    fn author_video(comments: &Vec<Json>, author_id: &String) -> (r: Option<String>)
        ensures
            match r {
                Some(url) => author_video_from(comments@, author_id@, 0) == Some(url@),
                None => author_video_from(comments@, author_id@, 0) is None,
            },
    {
        let mut i: usize = 0;
        while i < comments.len()
            invariant
                i <= comments@.len(),
                author_video_from(comments@, author_id@, 0) == author_video_from(
                    comments@,
                    author_id@,
                    i as int,
                ),
            decreases comments@.len() - i,
        {
            let item = get(Some(&comments[i]), "item");
            let comment_author_id = string_or_empty(get(get(item, "author"), "id"));
            if comment_author_id == *author_id {
                match text(
                    get(first(get(get(get(item, "video"), "video_high"), "url_list")), "url"),
                ) {
                    Some(url) => {
                        if !url.as_str().is_empty() {
                            return Some(url.clone());
                        }
                    },
                    None => {},
                }
            }
            i += 1;
        }
        None
    }

    /// The record of the item `data`.
    pub fn record_of_item(data: &Json) -> (r: VideoParseInfo)
        ensures
            r@ == item_record(*data),
            r@.is_exclusive(),
    {
        let node = Some(data);
        let author_node = get(node, "author");
        let author_id = string_or_empty(get(author_node, "id"));
        let images = Self::images_of(data);
        let mut video_url = string_or_empty(
            get(first(get(get(get(node, "video"), "video_high"), "url_list")), "url"),
        );
        match items(get(node, "comments")) {
            Some(comments) => {
                match Self::author_video(comments, &author_id) {
                    Some(url) => {
                        video_url = url;
                    },
                    None => {},
                }
            },
            None => {},
        }
        let title = string_or_empty(get(node, "content"));
        let cover_url = string_or_empty(get(first(get(get(node, "cover"), "url_list")), "url"));
        let author = Author {
            uid: author_id,
            name: string_or_empty(get(author_node, "name")),
            avatar: string_or_empty(
                get(first(get(get(author_node, "avatar"), "download_list")), "url"),
            ),
        };
        VideoParseInfo::plain(author, title, video_url, cover_url, images, PLATFORM).normalize()
    }

    /// What follows the answer of the item API.
    pub fn parse_video_id(event: &HttpEvent) -> (step: Step)
        ensures
            step@ == after_item(event@),
            step@.is_exclusive(),
    {
        let body = match event {
            HttpEvent::Unreachable => {
                return Step::Failed(ResolutionError::UpstreamUnreachable);
            },
            HttpEvent::Response { status, location, body } => body,
        };
        let json = Json::parse(body.as_str());
        let data = get(
            get(first(get(get(json.as_ref(), "data"), "cell_comments")), "comment_info"),
            "item",
        );
        match data {
            Some(data) => Step::Done(Self::record_of_item(data)),
            None => Step::Failed(ResolutionError::UpstreamFormatChanged),
        }
    }
}

} // verus!
