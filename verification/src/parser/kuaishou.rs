//! Short-video platform whose share links redirect several times before
//! they reach the page of the item.

use vstd::prelude::*;

use crate::embedded::{extract, extracted, SCRIPT_END};
use crate::error::{ErrorView, ResolutionError};
use crate::json::{
    at, element, get, items, items_of, member, members, members_of, plain, string_or_empty, text,
    text_of, text_or_empty, Json,
};
use crate::models::{
    images_view, lemma_images_view_push, Author, AuthorView, ImgInfo, ImgInfoView,
    VideoParseInfo, VideoParseInfoView,
};
use crate::parser::utils::{link_of, share_link};
use crate::protocol::{
    is_redirection, redirect_target, resolve_redirect, HttpEvent, HttpEventView, HttpRequest,
    HttpRequestView, Location, LocationView, Pending, PendingView, Step, StepView,
    MAX_REDIRECT_HOPS,
};
use crate::text::{append_str, replaced, str_replace, string_of};

verus! {

/// The adapter of the platform.
pub struct Kuaishou;

/// The name that records of this platform carry.
pub const PLATFORM: &'static str = "kuaishou";

/// The `User-Agent` of every request to the platform.
pub const KUAISHOU_USER_AGENT: &'static str =
    "Mozilla/5.0 (iPhone; CPU iPhone OS 26_0 like Mac OS X) AppleWebKit/605.1.15 (KHTML, like Gecko) Version/26.0 Mobile/15E148 Safari/604.1";

/// What requests for the page accept.
pub const PAGE_ACCEPT: &'static str =
    "text/html,application/xhtml+xml,application/xml;q=0.9,image/avif,image/webp,image/apng,*/*;q=0.8,application/signed-exchange;v=b3;q=0.7";

/// The device that requests for the page present.
pub const PAGE_COOKIE: &'static str = "did=web_d1326127361a7a02596e1e273063544d; didv=1686713337000;";

/// The seconds allowed for one request.
pub const TIMEOUT_SECS: u64 = 10;

/// The request that asks `url` where it leads.
pub open spec fn hop_request(url: Seq<char>) -> HttpRequestView {
    HttpRequestView::get(url).header("User-Agent"@, KUAISHOU_USER_AGENT@).no_redirects().timeout(
        TIMEOUT_SECS,
    )
}

/// The request for the page at `url`.
pub open spec fn page_request(url: Seq<char>) -> HttpRequestView {
    HttpRequestView::get(url).header("User-Agent"@, KUAISHOU_USER_AGENT@).header(
        "Accept"@,
        PAGE_ACCEPT@,
    ).header("Cookie"@, PAGE_COOKIE@).no_redirects().timeout(TIMEOUT_SECS)
}

/// A redirect target with the path of long videos replaced by that of
/// ordinary items.
pub open spec fn rewritten(location: Seq<char>) -> Seq<char> {
    replaced(location, "/fw/long-video/"@, "/fw/photo/"@)
}

/// Where a resolution starts: the share link is asked where it leads.
pub open spec fn started(raw: Seq<char>) -> StepView {
    StepView::Fetch(
        hop_request(share_link(raw)),
        PendingView::KuaishouRedirect { url: share_link(raw), hops: 0 },
    )
}

/// Whether a response is a redirection whose target cannot be read.
pub open spec fn is_broken_redirect(event: HttpEventView) -> bool {
    event matches HttpEventView::Response { status, location: LocationView::Unreadable, body }
        && is_redirection(status)
}

/// What follows the answer of `url`, reached after `hops` redirections: a
/// redirection is followed, unless it would be the fifth, which fails the
/// resolution; an answer that redirects nowhere makes `url` the page.
pub open spec fn after_redirect(url: Seq<char>, hops: u8, event: HttpEventView) -> StepView {
    match event {
        HttpEventView::Unreachable => StepView::Failed(ErrorView::UpstreamUnreachable),
        _ => match redirect_target(event) {
            Some(location) => if hops + 1 >= MAX_REDIRECT_HOPS {
                StepView::Failed(ErrorView::TooManyRedirects)
            } else {
                StepView::Fetch(
                    hop_request(rewritten(location)),
                    PendingView::KuaishouRedirect {
                        url: rewritten(location),
                        hops: (hops + 1) as u8,
                    },
                )
            },
            None => if is_broken_redirect(event) {
                StepView::Failed(ErrorView::NoRedirectLocation)
            } else {
                StepView::Fetch(page_request(url), PendingView::KuaishouPage)
            },
        },
    }
}

/// Whether a node of the page state describes an item: it has the members
/// `photo` and `result`.
pub open spec fn is_detail(node: Json) -> bool {
    member(Some(node), "photo"@) is Some && member(Some(node), "result"@) is Some
}

/// The first node at or after position `i` that describes an item.
pub open spec fn first_detail(nodes: Seq<(String, Json)>, i: int) -> Option<Json>
    decreases nodes.len() - i,
{
    if i < 0 || i >= nodes.len() {
        None
    } else if is_detail(nodes[i].1) {
        Some(nodes[i].1)
    } else {
        first_detail(nodes, i + 1)
    }
}

/// The node of the page state that describes the item: the first member of
/// the root with `photo` and `result`, else the member `visionVideoDetail`.
pub open spec fn detail_of(root: Json) -> Option<Json> {
    let structural = match members_of(Some(root)) {
        Some(nodes) => first_detail(nodes, 0),
        None => None,
    };
    match structural {
        Some(node) => Some(node),
        None => member(Some(root), "visionVideoDetail"@),
    }
}

/// The address of one picture of an atlas.
pub open spec fn atlas_url(cdn: Seq<char>, path: Seq<char>) -> Seq<char> {
    "https://"@ + cdn + "/"@ + path
}

/// The pictures that the first `n` entries of an atlas name.
pub open spec fn atlas_until(list: Seq<Json>, cdn: Seq<char>, n: int) -> Seq<ImgInfoView>
    decreases n,
{
    if n <= 0 {
        Seq::empty()
    } else {
        match text_of(Some(list[n - 1])) {
            Some(path) => atlas_until(list, cdn, n - 1).push(
                ImgInfoView { url: atlas_url(cdn, path), live_photo_url: None },
            ),
            None => atlas_until(list, cdn, n - 1),
        }
    }
}

/// The pictures of an item: those of its atlas, where the atlas names a
/// host for them.
pub open spec fn photo_images(photo: Json) -> Seq<ImgInfoView> {
    let atlas = member(member(Some(photo), "ext_params"@), "atlas"@);
    let cdn = text_or_empty(element(member(atlas, "cdn"@), 0));
    match items_of(member(atlas, "list"@)) {
        Some(list) => if cdn.len() > 0 {
            atlas_until(list, cdn, list.len() as int)
        } else {
            Seq::empty()
        },
        None => Seq::empty(),
    }
}

/// The record of an item.
pub open spec fn photo_record(photo: Json) -> VideoParseInfoView {
    VideoParseInfoView::plain(
        AuthorView {
            uid: Seq::empty(),
            name: text_or_empty(member(Some(photo), "userName"@)),
            avatar: text_or_empty(member(Some(photo), "headUrl"@)),
        },
        text_or_empty(member(Some(photo), "caption"@)),
        text_or_empty(member(element(member(Some(photo), "mainMvUrls"@), 0), "url"@)),
        text_or_empty(member(element(member(Some(photo), "coverUrls"@), 0), "url"@)),
        photo_images(photo),
        PLATFORM@,
    ).normalized()
}

/// What the page of an item resolves to.
pub open spec fn page_record(html: Seq<char>) -> Result<VideoParseInfoView, ErrorView> {
    match extracted(html, "window.INIT_STATE"@, SCRIPT_END@) {
        Ok(root) => match member(detail_of(root), "photo"@) {
            Some(photo) => Ok(photo_record(photo)),
            None => Err(ErrorView::UpstreamFormatChanged),
        },
        Err(e) => Err(e),
    }
}

/// What follows the page of the item.
pub open spec fn after_page(event: HttpEventView) -> StepView {
    match event {
        HttpEventView::Unreachable => StepView::Failed(ErrorView::UpstreamUnreachable),
        HttpEventView::Response { status, location, body } => match page_record(body) {
            Ok(record) => StepView::Done(record),
            Err(e) => StepView::Failed(e),
        },
    }
}

impl Kuaishou {
    /// The request that asks `url` where it leads.
    fn hop(url: String) -> (r: HttpRequest)
        ensures
            r@ == hop_request(url@),
    {
        HttpRequest::get(url).header("User-Agent", KUAISHOU_USER_AGENT).no_redirects().timeout(
            TIMEOUT_SECS,
        )
    }

    /// The first step of resolving a share text of the platform.
    pub fn parse_share_url(share_url: &str) -> (step: Step)
        ensures
            step@ == started(share_url@),
            step@.is_exclusive(),
    {
        let url_str = link_of(share_url);
        Step::Fetch(Self::hop(url_str.clone()), Pending::KuaishouRedirect { url: url_str, hops: 0 })
    }

    /// What follows the answer of `url`, reached after `hops` redirections.
    pub fn follow_redirect(url: String, hops: u8, event: &HttpEvent) -> (step: Step)
        ensures
            step@ == after_redirect(url@, hops, event@),
            step@.is_exclusive(),
    {
        match event {
            HttpEvent::Unreachable => {
                return Step::Failed(ResolutionError::UpstreamUnreachable);
            },
            _ => {},
        }
        match resolve_redirect(event) {
            Ok(location) => {
                if hops >= MAX_REDIRECT_HOPS - 1 {
                    Step::Failed(ResolutionError::TooManyRedirects)
                } else {
                    let next = str_replace(location.as_str(), "/fw/long-video/", "/fw/photo/");
                    Step::Fetch(
                        Self::hop(next.clone()),
                        Pending::KuaishouRedirect { url: next, hops: hops + 1 },
                    )
                }
            },
            Err(_) => {
                let broken = match event {
                    HttpEvent::Response { status, location: Location::Unreadable, body } => 300
                        <= *status && *status < 400,
                    _ => false,
                };
                if broken {
                    Step::Failed(ResolutionError::NoRedirectLocation)
                } else {
                    let request = HttpRequest::get(url).header(
                        "User-Agent",
                        KUAISHOU_USER_AGENT,
                    ).header("Accept", PAGE_ACCEPT).header("Cookie", PAGE_COOKIE).no_redirects().timeout(
                        TIMEOUT_SECS,
                    );
                    Step::Fetch(request, Pending::KuaishouPage)
                }
            },
        }
    }

    /// The node of the page state `root` that describes the item.
    pub fn find_detail<'a>(root: &'a Json) -> (r: Option<&'a Json>)
        ensures
            plain(r) == detail_of(*root),
    {
        match members(Some(root)) {
            Some(nodes) => {
                let mut i: usize = 0;
                while i < nodes.len()
                    invariant
                        i <= nodes@.len(),
                        members_of(Some(*root)) == Some(nodes@),
                        first_detail(nodes@, 0) == first_detail(nodes@, i as int),
                    decreases nodes@.len() - i,
                {
                    let node = Some(&nodes[i].1);
                    if get(node, "photo").is_some() && get(node, "result").is_some() {
                        return node;
                    }
                    i += 1;
                }
            },
            None => {},
        }
        get(Some(root), "visionVideoDetail")
    }

    /// The pictures of the item `photo`.
    fn images_of(photo: &Json) -> (images: Vec<ImgInfo>)
        ensures
            images_view(images@) == photo_images(*photo),
    {
        let mut images: Vec<ImgInfo> = Vec::new();
        let atlas = get(get(Some(photo), "ext_params"), "atlas");
        let cdn = string_or_empty(at(get(atlas, "cdn"), 0));
        let list = match items(get(atlas, "list")) {
            Some(list) => list,
            None => {
                return images;
            },
        };
        if cdn.as_str().is_empty() {
            return images;
        }
        let mut i: usize = 0;
        while i < list.len()
            invariant
                i <= list@.len(),
                images_view(images@) == atlas_until(list@, cdn@, i as int),
            decreases list@.len() - i,
        {
            match text(Some(&list[i])) {
                Some(path) => {
                    let mut url: Vec<char> = Vec::new();
                    append_str(&mut url, "https://");
                    append_str(&mut url, cdn.as_str());
                    append_str(&mut url, "/");
                    append_str(&mut url, path.as_str());
                    let image = ImgInfo { url: string_of(url.as_slice()), live_photo_url: None };
                    proof {
                        lemma_images_view_push(images@, image);
                    }
                    images.push(image);
                },
                None => {},
            }
            i += 1;
        }
        images
    }

    /// The record that the page `html` of an item describes.
    pub fn parse_html(html: &str) -> (r: Result<VideoParseInfo, ResolutionError>)
        ensures
            match r {
                Ok(record) => page_record(html@) == Ok::<VideoParseInfoView, ErrorView>(record@)
                    && record@.is_exclusive(),
                Err(e) => page_record(html@) == Err::<VideoParseInfoView, ErrorView>(e@),
            },
    {
        let root = match extract(html, "window.INIT_STATE") {
            Ok(root) => root,
            Err(e) => {
                return Err(e);
            },
        };
        match get(Self::find_detail(&root), "photo") {
            Some(photo) => Ok(Self::record_of_photo(photo)),
            None => Err(ResolutionError::UpstreamFormatChanged),
        }
    }

    /// The record of the item `photo`.
    pub fn record_of_photo(photo: &Json) -> (r: VideoParseInfo)
        ensures
            r@ == photo_record(*photo),
            r@.is_exclusive(),
    {
        let node = Some(photo);
        let author = Author {
            uid: String::new(),
            name: string_or_empty(get(node, "userName")),
            avatar: string_or_empty(get(node, "headUrl")),
        };
        let title = string_or_empty(get(node, "caption"));
        let video_url = string_or_empty(get(at(get(node, "mainMvUrls"), 0), "url"));
        let cover_url = string_or_empty(get(at(get(node, "coverUrls"), 0), "url"));
        let images = Self::images_of(photo);
        VideoParseInfo::plain(author, title, video_url, cover_url, images, PLATFORM).normalize()
    }

    /// What follows the page of the item.
    pub fn parse_page(event: &HttpEvent) -> (step: Step)
        ensures
            step@ == after_page(event@),
            step@.is_exclusive(),
    {
        match event {
            HttpEvent::Unreachable => Step::Failed(ResolutionError::UpstreamUnreachable),
            HttpEvent::Response { status, location, body } => match Self::parse_html(body.as_str()) {
                Ok(record) => Step::Done(record),
                Err(e) => Step::Failed(e),
            },
        }
    }
}

/// The state after one more redirection was followed, where the hop limit
/// allows it.
pub open spec fn redirected(url: Seq<char>, hops: u8, location: Seq<char>) -> StepView {
    after_redirect(
        url,
        hops,
        HttpEventView::Response {
            status: 302,
            location: LocationView::Target(location),
            body: Seq::empty(),
        },
    )
}

/// What a resolution has come to after a server answered the first request
/// and every one after it with one of `targets`, each a redirection: the
/// step that the last answer led to.
pub open spec fn after_redirections(url: Seq<char>, hops: u8, targets: Seq<Seq<char>>) -> StepView
    decreases targets.len(),
{
    if targets.len() == 0 {
        StepView::Fetch(hop_request(url), PendingView::KuaishouRedirect { url, hops })
    } else {
        match redirected(url, hops, targets[0]) {
            StepView::Fetch(request, PendingView::KuaishouRedirect { url: next, hops: more }) => after_redirections(
                next,
                more,
                targets.drop_first(),
            ),
            other => other,
        }
    }
}

/// A server that answers every request with a redirection ends the
/// resolution with `TooManyRedirects` at the fifth answer, whatever the
/// targets are; until then every answer is followed by one more request.
pub proof fn lemma_redirect_loop_ends(raw: Seq<char>, targets: Seq<Seq<char>>)
    ensures
        targets.len() >= MAX_REDIRECT_HOPS ==> after_redirections(share_link(raw), 0, targets)
            == StepView::Failed(ErrorView::TooManyRedirects),
        targets.len() < MAX_REDIRECT_HOPS ==> (after_redirections(share_link(raw), 0, targets)
            matches StepView::Fetch(_, PendingView::KuaishouRedirect { url, hops })
            && hops == targets.len()),
{
    lemma_redirections(share_link(raw), 0, targets);
}

proof fn lemma_redirections(url: Seq<char>, hops: u8, targets: Seq<Seq<char>>)
    requires
        hops < MAX_REDIRECT_HOPS,
    ensures
        hops + targets.len() >= MAX_REDIRECT_HOPS ==> after_redirections(url, hops, targets)
            == StepView::Failed(ErrorView::TooManyRedirects),
        hops + targets.len() < MAX_REDIRECT_HOPS ==> (after_redirections(url, hops, targets)
            matches StepView::Fetch(_, PendingView::KuaishouRedirect { url: last, hops: reached })
            && reached == hops + targets.len()),
    decreases targets.len(),
{
    if targets.len() > 0 {
        if hops + 1 < MAX_REDIRECT_HOPS {
            lemma_redirections(rewritten(targets[0]), (hops + 1) as u8, targets.drop_first());
        }
    }
}

} // verus!
