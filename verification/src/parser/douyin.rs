//! Short-video platform with two kinds of share links: a short link that
//! redirects, and the link of the page itself.

use vstd::prelude::*;

use crate::error::{ErrorView, ResolutionError};
use crate::json::{
    as_u64, at, element, get, items, items_of, json_parse, member, members, members_of, not_null,
    plain, present, string_or_empty, text, text_of, text_or_empty, u64_of, Json,
};
use crate::link::{last_piece, last_piece_of, url_parse, UrlParts};
use crate::models::{
    images_view, lemma_images_view_push, lemma_previews_view_push, lemma_qualities_view_push,
    previews_view, qualities_view, Author, AuthorView, ImgInfo, ImgInfoView, VideoParseInfo,
    VideoParseInfoView, VideoPreview, VideoPreviewView, VideoQuality, VideoQualityView,
};
use crate::embedded::{extract, extracted, SCRIPT_END};
use crate::html::{canonical_link, get_canonical_from_html};
use crate::parser::utils::{
    generate_fixed_length_numeric_id, is_letter, is_numeric_id, link_of, numeric_id, pow10,
    rand_seq, share_link, zero_padded, DEFAULT_USER_AGENT,
};
use crate::protocol::{
    probe, probe_request, redirect_target, resolve_redirect, HttpEvent, HttpEventView,
    HttpRequest, HttpRequestView, Pending, PendingView, Step, StepView,
};
use crate::text::{
    append_str, chars_of, contains, find_from, has, lemma_find_from, matches_at, prefix, replaced,
    replaced_from, starts_with, str_concat, str_contains, str_replace, str_starts_with, string_of,
    take_chars, trim, trimmed, CharClass,
};

verus! {

/// The adapter of the platform.
pub struct DouYin;

/// The name that records of this platform carry.
pub const PLATFORM: &'static str = "douyin";

/// The label of a quality that the platform gives no name.
pub const UNKNOWN_QUALITY: &'static str = "未知";

/// Where a link of the platform names its content: in the query parameter
/// `modal_id` where that is there and not empty, else in the last piece of
/// the path.
pub open spec fn named_content(parts: UrlParts) -> Seq<char> {
    match parts.query_value("modal_id"@) {
        Some(v) => if v.len() > 0 {
            v
        } else {
            last_piece(trimmed(parts.path@, CharClass::Only('/')), '/')
        },
        None => last_piece(trimmed(parts.path@, CharClass::Only('/')), '/'),
    }
}

/// The content identifier in a link of the platform: what the link names
/// as its content, which must be a number.
pub open spec fn video_id_of(link: Seq<char>) -> Option<Seq<char>> {
    match url_parse(link) {
        Some(parts) => if is_numeric_id(named_content(parts)) {
            Some(named_content(parts))
        } else {
            None
        },
        None => None,
    }
}

/// Whether a key of the loader data names the page of a video or a note.
pub open spec fn is_page_key(key: Seq<char>) -> bool {
    contains(key, "/page"@) && (starts_with(key, "video_"@) || starts_with(key, "note_"@))
}

/// The item that a page node of the loader data holds.
pub open spec fn page_item(value: Json) -> Option<Json> {
    present(element(member(member(Some(value), "videoInfoRes"@), "item_list"@), 0))
}

/// The item of the first member at or after position `i` that is a page
/// node with an item.
pub open spec fn first_page_item(members: Seq<(String, Json)>, i: int) -> Option<Json>
    decreases members.len() - i,
{
    if i < 0 || i >= members.len() {
        None
    } else if is_page_key(members[i].0@) && page_item(members[i].1) is Some {
        page_item(members[i].1)
    } else {
        first_page_item(members, i + 1)
    }
}

/// The item that the router data of a share page describes.
pub open spec fn router_item(root: Json) -> Option<Json> {
    match members_of(member(Some(root), "loaderData"@)) {
        Some(ms) => first_page_item(ms, 0),
        None => None,
    }
}

/// The first text at or after position `i` of `list` that does not hold
/// `.webp`.
pub open spec fn first_plain_url(list: Seq<Json>, i: int) -> Option<Seq<char>>
    decreases list.len() - i,
{
    if i < 0 || i >= list.len() {
        None
    } else {
        match text_of(Some(list[i])) {
            Some(u) => if !contains(u, ".webp"@) {
                Some(u)
            } else {
                first_plain_url(list, i + 1)
            },
            None => first_plain_url(list, i + 1),
        }
    }
}

/// The address to use of a list of addresses of one image: the first that
/// is no WebP image, else the first of all, else none.
pub open spec fn no_webp_url(list: Seq<Json>) -> Seq<char> {
    match first_plain_url(list, 0) {
        Some(u) => u,
        None => if list.len() > 0 {
            text_or_empty(Some(list[0]))
        } else {
            Seq::empty()
        },
    }
}

/// The address to use of an optional list of addresses.
pub open spec fn no_webp_url_of(list: Option<Seq<Json>>) -> Seq<char> {
    match list {
        Some(l) => no_webp_url(l),
        None => Seq::empty(),
    }
}

/// The image that one entry of an item's image list describes, where it
/// has a list of addresses that gives one.
pub open spec fn image_of(img: Json) -> Option<ImgInfoView> {
    match items_of(member(Some(img), "url_list"@)) {
        Some(url_list) => if no_webp_url(url_list).len() > 0 {
            Some(
                ImgInfoView {
                    url: no_webp_url(url_list),
                    live_photo_url: text_of(
                        element(
                            member(member(member(Some(img), "video"@), "play_addr"@), "url_list"@),
                            0,
                        ),
                    ),
                },
            )
        } else {
            None
        },
        None => None,
    }
}

/// The images of the first `n` entries of an image list.
pub open spec fn images_until(imgs: Seq<Json>, n: int) -> Seq<ImgInfoView>
    decreases n,
{
    if n <= 0 {
        Seq::empty()
    } else {
        match image_of(imgs[n - 1]) {
            Some(image) => images_until(imgs, n - 1).push(image),
            None => images_until(imgs, n - 1),
        }
    }
}

/// The images of an item.
pub open spec fn item_images(item: Json) -> Seq<ImgInfoView> {
    match items_of(member(Some(item), "images"@)) {
        Some(imgs) => images_until(imgs, imgs.len() as int),
        None => Seq::empty(),
    }
}

/// A media address without the token that asks for the watermarked variant.
pub open spec fn without_watermark(url: Seq<char>) -> Seq<char> {
    replaced(url, "playwm"@, "play"@)
}

/// The address that one entry of the list of bit rates names: the first of
/// its play addresses.
pub open spec fn rate_url(br: Json) -> Option<Seq<char>> {
    text_of(element(member(member(Some(br), "play_addr"@), "url_list"@), 0))
}

/// The quality that one entry of the list of bit rates describes, where it
/// has an address.
pub open spec fn quality_of(br: Json) -> Option<VideoQualityView> {
    match rate_url(br) {
        Some(u) => if without_watermark(u).len() > 0 {
            Some(
                VideoQualityView {
                    quality: match text_of(member(Some(br), "gear_name"@)) {
                        Some(name) => name,
                        None => UNKNOWN_QUALITY@,
                    },
                    video_url: without_watermark(u),
                    size: u64_of(member(member(Some(br), "play_addr"@), "data_size"@)),
                },
            )
        } else {
            None
        },
        None => None,
    }
}

/// The qualities of the first `n` entries of a list of bit rates.
pub open spec fn qualities_until(rates: Seq<Json>, n: int) -> Seq<VideoQualityView>
    decreases n,
{
    if n <= 0 {
        Seq::empty()
    } else {
        match quality_of(rates[n - 1]) {
            Some(q) => qualities_until(rates, n - 1).push(q),
            None => qualities_until(rates, n - 1),
        }
    }
}

/// Whether an item is a note: it has a list of images that is not empty.
pub open spec fn is_note(item: Json) -> bool {
    match items_of(member(Some(item), "images"@)) {
        Some(imgs) => imgs.len() > 0,
        None => false,
    }
}

/// The qualities that the list of bit rates of an item gives.
pub open spec fn listed_qualities(item: Json) -> Seq<VideoQualityView> {
    match items_of(member(member(Some(item), "video"@), "bit_rate"@)) {
        Some(rates) => qualities_until(rates, rates.len() as int),
        None => Seq::empty(),
    }
}

/// The alternate qualities of an item: those that its list of bit rates
/// gives, none for a note.
pub open spec fn item_qualities(item: Json) -> Seq<VideoQualityView> {
    if is_note(item) {
        Seq::empty()
    } else {
        listed_qualities(item)
    }
}

/// The primary address of an item that is no note: that of its first
/// quality, else the play address of the video.
pub open spec fn item_video_url(item: Json) -> Seq<char> {
    if is_note(item) {
        Seq::empty()
    } else if item_qualities(item).len() > 0 {
        item_qualities(item)[0].video_url
    } else {
        match text_of(
            element(member(member(member(Some(item), "video"@), "play_addr"@), "url_list"@), 0),
        ) {
            Some(u) => without_watermark(u),
            None => Seq::empty(),
        }
    }
}

/// The author of an item.
pub open spec fn item_author(item: Json) -> AuthorView {
    let author = member(Some(item), "author"@);
    AuthorView {
        uid: text_or_empty(member(author, "sec_uid"@)),
        name: text_or_empty(member(author, "nickname"@)),
        avatar: text_or_empty(element(member(member(author, "avatar_thumb"@), "url_list"@), 0)),
    }
}

/// The record of an item, before any of its addresses is followed.
pub open spec fn item_record(item: Json) -> VideoParseInfoView {
    (VideoParseInfoView {
        video_qualities: item_qualities(item),
        ..VideoParseInfoView::plain(
            item_author(item),
            text_or_empty(member(Some(item), "desc"@)),
            item_video_url(item),
            no_webp_url_of(
                items_of(member(member(member(Some(item), "video"@), "cover"@), "url_list"@)),
            ),
            item_images(item),
            PLATFORM@,
        )
    }).normalized()
}

/// What the router data of a share page, given as JSON text, resolves to.
pub open spec fn router_record(json_str: Seq<char>) -> Result<VideoParseInfoView, ErrorView> {
    match json_parse(json_str) {
        Some(root) => match router_item(root) {
            Some(item) => Ok(item_record(item)),
            None => Err(ErrorView::UpstreamFormatChanged),
        },
        None => Err(ErrorView::MalformedEmbeddedState(prefix(json_str, 100))),
    }
}

/// The address of the share page of an item.
pub open spec fn page_url(video_id: Seq<char>) -> Seq<char> {
    "https://www.douyin.com/share/video/"@ + video_id
}

/// The request for the share page of an item.
pub open spec fn page_request(video_id: Seq<char>) -> HttpRequestView {
    HttpRequestView::get(page_url(video_id)).header("User-Agent"@, DEFAULT_USER_AGENT@)
}

/// The address of the detail API for the note `video_id`, asked as the
/// client `web_id` with the signature seed `a_bogus`.
pub open spec fn slides_url(video_id: Seq<char>, web_id: Seq<char>, a_bogus: Seq<char>) -> Seq<
    char,
> {
    "https://www.douyin.com/web/api/v2/aweme/slidesinfo/?reflow_source=reflow_page&web_id="@
        + web_id + "&device_id="@ + web_id + "&aweme_ids=%5B"@ + video_id
        + "%5D&request_source=200&a_bogus="@ + a_bogus
}

/// The request to the detail API.
pub open spec fn slides_request(
    video_id: Seq<char>,
    web_id: Seq<char>,
    a_bogus: Seq<char>,
) -> HttpRequestView {
    HttpRequestView::get(slides_url(video_id, web_id, a_bogus)).header(
        "User-Agent"@,
        DEFAULT_USER_AGENT@,
    )
}

/// A client identity as the detail API takes it: `75` and 15 decimal digits.
pub open spec fn is_web_id(web_id: Seq<char>) -> bool {
    exists|v: nat| v < pow10(15) && web_id == "75"@ + zero_padded(v, 15)
}

/// A signature seed as the detail API takes it: 64 letters and digits.
pub open spec fn is_signature_seed(a_bogus: Seq<char>) -> bool {
    a_bogus.len() == 64 && forall|i: int| 0 <= i < 64 ==> is_letter(#[trigger] a_bogus[i])
}

/// The record with the address in slot `next` replaced by `target`: slot 0
/// is the primary address, slot `k` the quality at position `k - 1`, and a
/// slot that is not there changes nothing.
pub open spec fn slot_replaced(record: VideoParseInfoView, next: int, target: Seq<char>) -> VideoParseInfoView {
    if next == 0 {
        VideoParseInfoView { video_url: target, ..record }
    } else if 1 <= next <= record.video_qualities.len() {
        VideoParseInfoView {
            video_qualities: record.video_qualities.update(
                next - 1,
                VideoQualityView { video_url: target, ..record.video_qualities[next - 1] },
            ),
            ..record
        }
    } else {
        record
    }
}

/// The record with the address in slot `next` replaced by `target`, made
/// exclusive: a record with images takes no video address.
pub open spec fn with_slot(record: VideoParseInfoView, next: int, target: Seq<char>) -> VideoParseInfoView {
    slot_replaced(record, next, target).normalized()
}

/// What follows once the slots before `next` are settled: the next address
/// that is there is asked where it leads, and after the last the record is
/// handed out.
pub open spec fn follow_up(record: VideoParseInfoView, next: int) -> StepView {
    if next <= 0 && record.video_url.len() > 0 {
        StepView::Fetch(
            probe(record.video_url, DEFAULT_USER_AGENT@),
            PendingView::DouyinCdn { record, next: 0 },
        )
    } else {
        let k = if next <= 0 {
            1
        } else {
            next
        };
        if k <= record.video_qualities.len() && k <= usize::MAX {
            StepView::Fetch(
                probe(record.video_qualities[k - 1].video_url, DEFAULT_USER_AGENT@),
                PendingView::DouyinCdn { record, next: k as usize },
            )
        } else {
            StepView::Done(record.normalized())
        }
    }
}

/// Where a resolution starts: a short link is asked where it leads, the
/// link of a page gives the content identifier at once.
pub open spec fn started(raw: Seq<char>) -> StepView {
    let link = share_link(raw);
    match url_parse(link) {
        Some(parts) => {
            let host = parts.host_text();
            if contains(host, "v.douyin.com"@) {
                StepView::Fetch(probe(link, DEFAULT_USER_AGENT@), PendingView::DouyinRedirect)
            } else if contains(host, "iesdouyin.com"@) || contains(host, "douyin.com"@) {
                to_page(video_id_of(link))
            } else {
                StepView::Failed(ErrorView::UnsupportedPlatform)
            }
        },
        None => StepView::Failed(ErrorView::InvalidShareInput),
    }
}

/// The request for the share page of the item, where the link named one.
pub open spec fn to_page(video_id: Option<Seq<char>>) -> StepView {
    match video_id {
        Some(id) => StepView::Fetch(page_request(id), PendingView::DouyinPage { video_id: id }),
        None => StepView::Failed(ErrorView::InvalidShareInput),
    }
}

/// What follows the answer of a short link.
pub open spec fn after_redirect(event: HttpEventView) -> StepView {
    match event {
        HttpEventView::Unreachable => StepView::Failed(ErrorView::UpstreamUnreachable),
        _ => match redirect_target(event) {
            Some(location) => to_page(video_id_of(location)),
            None => StepView::Failed(ErrorView::NoRedirectLocation),
        },
    }
}

/// The item that a share page describes in its router data.
pub open spec fn page_router_item(body: Seq<char>) -> Option<Json> {
    match extracted(body, "window._ROUTER_DATA"@, SCRIPT_END@) {
        Ok(root) => router_item(root),
        Err(_) => None,
    }
}

/// Whether a share page names the address of a note as its canonical one.
pub open spec fn is_note_page(body: Seq<char>) -> bool {
    match canonical_link(body) {
        Some(c) => contains(c, "/note/"@),
        None => false,
    }
}

/// What follows the share page: the record of the item in its router data;
/// where there is none and the page is that of a note, the detail API is
/// asked.
pub open spec fn after_page(
    video_id: Seq<char>,
    event: HttpEventView,
    web_id: Seq<char>,
    a_bogus: Seq<char>,
) -> StepView {
    match event {
        HttpEventView::Unreachable => StepView::Failed(ErrorView::UpstreamUnreachable),
        HttpEventView::Response { status, location, body } => match page_router_item(body) {
            Some(item) => follow_up(item_record(item), 0),
            None => if is_note_page(body) {
                StepView::Fetch(slides_request(video_id, web_id, a_bogus), PendingView::DouyinSlides)
            } else {
                StepView::Failed(ErrorView::UpstreamFormatChanged)
            },
        },
    }
}

/// What follows the answer of the detail API.
pub open spec fn after_slides(event: HttpEventView) -> StepView {
    match event {
        HttpEventView::Unreachable => StepView::Failed(ErrorView::UpstreamUnreachable),
        HttpEventView::Response { status, location, body } => match present(
            element(member(json_parse(body), "aweme_details"@), 0),
        ) {
            Some(detail) => follow_up(item_record(detail), 0),
            None => StepView::Failed(ErrorView::UpstreamFormatChanged),
        },
    }
}

/// What follows the answer of a media address: where it leads elsewhere,
/// the record takes the new address; then the next address is asked.
pub open spec fn after_cdn(record: VideoParseInfoView, next: usize, event: HttpEventView) -> StepView {
    let updated = match redirect_target(event) {
        Some(target) => with_slot(record, next as int, target),
        None => record,
    };
    follow_up(updated, next + 1)
}

/// The preview that one entry of a list of posts gives, where it has an
/// identifier.
pub open spec fn preview_of(item: Json) -> Option<VideoPreviewView> {
    if text_or_empty(member(Some(item), "aweme_id"@)).len() > 0 {
        Some(
            VideoPreviewView {
                id: text_or_empty(member(Some(item), "aweme_id"@)),
                title: text_or_empty(member(Some(item), "desc"@)),
                cover_url: no_webp_url_of(
                    items_of(member(member(member(Some(item), "video"@), "cover"@), "url_list"@)),
                ),
                video_url: Seq::empty(),
                is_video: !is_note(item),
                platform: PLATFORM@,
            },
        )
    } else {
        None
    }
}

/// The previews of the first `n` entries of a list of posts.
pub open spec fn list_previews_until(list: Seq<Json>, n: int) -> Seq<VideoPreviewView>
    decreases n,
{
    if n <= 0 {
        Seq::empty()
    } else {
        match preview_of(list[n - 1]) {
            Some(p) => list_previews_until(list, n - 1).push(p),
            None => list_previews_until(list, n - 1),
        }
    }
}

/// The previews of the posts that one node of the loader data lists.
pub open spec fn node_previews(node: Json) -> Seq<VideoPreviewView> {
    match items_of(member(Some(node), "aweme_list"@)) {
        Some(list) => list_previews_until(list, list.len() as int),
        None => Seq::empty(),
    }
}

/// The previews of the posts that the first `n` nodes of the loader data
/// list, node after node.
pub open spec fn loader_previews_until(nodes: Seq<(String, Json)>, n: int) -> Seq<
    VideoPreviewView,
>
    decreases n,
{
    if n <= 0 {
        Seq::empty()
    } else {
        loader_previews_until(nodes, n - 1) + node_previews(nodes[n - 1].1)
    }
}

/// The previews that the router data of a publisher's page, given as JSON
/// text, lists.
pub open spec fn router_previews(json_str: Seq<char>) -> Result<Seq<VideoPreviewView>, ErrorView> {
    match json_parse(json_str) {
        Some(root) => match members_of(member(Some(root), "loaderData"@)) {
            Some(nodes) => Ok(loader_previews_until(nodes, nodes.len() as int)),
            None => Ok(Seq::empty()),
        },
        None => Err(ErrorView::MalformedEmbeddedState(prefix(json_str, 100))),
    }
}

/// What a resolution has come to after the media addresses of a record
/// were asked one after the other and answered by `events`: the step that
/// the last answer led to.
pub open spec fn probed(step: StepView, events: Seq<HttpEventView>) -> StepView
    decreases events.len(),
{
    if events.len() == 0 {
        step
    } else {
        match step {
            StepView::Fetch(request, PendingView::DouyinCdn { record, next }) => probed(
                after_cdn(record, next, events[0]),
                events.drop_first(),
            ),
            other => other,
        }
    }
}

/// An address that is not empty is not empty without its watermark token.
pub proof fn lemma_address_stays(u: Seq<char>)
    requires
        u.len() > 0,
    ensures
        without_watermark(u).len() > 0,
{
    reveal_strlit("playwm");
    reveal_strlit("play");
    if matches_at(u, "playwm"@, 0) {
        assert(without_watermark(u) == "play"@ + replaced_from(u, "playwm"@, "play"@, 6));
    } else {
        assert(without_watermark(u) == seq![u[0]] + replaced_from(u, "playwm"@, "play"@, 1));
    }
}

proof fn lemma_all_rates_are_qualities(rates: Seq<Json>, n: int)
    requires
        0 <= n <= rates.len(),
        forall|i: int| 0 <= i < rates.len() ==> quality_of(#[trigger] rates[i]) is Some,
    ensures
        qualities_until(rates, n).len() == n,
        forall|i: int|
            0 <= i < n ==> Some(#[trigger] qualities_until(rates, n)[i]) == quality_of(rates[i]),
    decreases n,
{
    if n > 0 {
        lemma_all_rates_are_qualities(rates, n - 1);
        assert(quality_of(rates[n - 1]) is Some);
    }
}

/// An item without images whose list of bit rates names an address in
/// every entry has one quality for every entry, in the order of the list:
/// each with the address of its entry without the watermark token, and
/// labelled by the gear name of its entry where that is a text. The
/// primary address is that of the first quality.
pub proof fn lemma_every_bit_rate_becomes_a_quality(item: Json, rates: Seq<Json>)
    requires
        !is_note(item),
        items_of(member(member(Some(item), "video"@), "bit_rate"@)) == Some(rates),
        forall|i: int|
            0 <= i < rates.len() ==> (rate_url(#[trigger] rates[i]) matches Some(u) && u.len() > 0),
    ensures
        item_record(item).images.len() == 0,
        item_record(item).video_qualities.len() == rates.len(),
        forall|i: int|
            #![trigger rates[i]]
            0 <= i < rates.len() ==> {
                let q = item_record(item).video_qualities[i];
                &&& q.video_url == without_watermark(rate_url(rates[i])->Some_0)
                &&& q.size == u64_of(member(member(Some(rates[i]), "play_addr"@), "data_size"@))
                &&& text_of(member(Some(rates[i]), "gear_name"@)) matches Some(name) ==> q.quality
                    == name
            },
        rates.len() > 0 ==> item_record(item).video_url == without_watermark(
            rate_url(rates[0])->Some_0,
        ),
{
    assert forall|i: int| 0 <= i < rates.len() implies quality_of(#[trigger] rates[i]) is Some by {
        lemma_address_stays(rate_url(rates[i])->Some_0);
    }
    lemma_all_rates_are_qualities(rates, rates.len() as int);
    assert(item_images(item).len() == 0);
    assert(item_qualities(item) == qualities_until(rates, rates.len() as int));
    assert forall|i: int| #![trigger rates[i]] 0 <= i < rates.len() implies Some(
        item_record(item).video_qualities[i],
    ) == quality_of(rates[i]) by {
        assert(Some(qualities_until(rates, rates.len() as int)[i]) == quality_of(rates[i]));
    }
    if rates.len() > 0 {
        assert(Some(item_qualities(item)[0]) == quality_of(rates[0]));
    }
}

proof fn lemma_probes_from(record: VideoParseInfoView, next: int, events: Seq<HttpEventView>)
    requires
        0 <= next,
        forall|i: int| 0 <= i < events.len() ==> redirect_target(#[trigger] events[i]) is None,
        events.len() + next >= record.video_qualities.len() + 1,
    ensures
        probed(follow_up(record, next), events) == StepView::Done(record.normalized()),
    decreases events.len(),
{
    match follow_up(record, next) {
        StepView::Fetch(request, PendingView::DouyinCdn { record: held, next: slot }) => {
            assert(held == record);
            assert(events.len() > 0);
            assert(redirect_target(events[0]) is None);
            assert(after_cdn(held, slot, events[0]) == follow_up(record, slot + 1));
            let rest = events.drop_first();
            assert forall|i: int| 0 <= i < rest.len() implies redirect_target(
                #[trigger] rest[i],
            ) is None by {
                assert(rest[i] == events[i + 1]);
            }
            lemma_probes_from(record, slot + 1, rest);
        },
        _ => {},
    }
}

/// Where no media address leads elsewhere, the record is handed out as it
/// was read: after as many answers without a redirect target as the record
/// has addresses, the resolution is done with the record unchanged.
pub proof fn lemma_probes_without_target_keep_the_record(
    record: VideoParseInfoView,
    events: Seq<HttpEventView>,
)
    requires
        forall|i: int| 0 <= i < events.len() ==> redirect_target(#[trigger] events[i]) is None,
        events.len() >= record.video_qualities.len() + 1,
    ensures
        probed(follow_up(record, 0), events) == StepView::Done(record.normalized()),
{
    lemma_probes_from(record, 0, events);
}

/// The share page of an item without images, whose list of bit rates names
/// an address in every entry, resolves to a record with one quality for
/// every entry, in the order of the list, once every media address was
/// asked and none led elsewhere.
pub proof fn lemma_page_with_bit_rates_resolves_to_its_qualities(
    video_id: Seq<char>,
    page: HttpEventView,
    web_id: Seq<char>,
    a_bogus: Seq<char>,
    item: Json,
    rates: Seq<Json>,
    probes: Seq<HttpEventView>,
)
    requires
        page matches HttpEventView::Response { status, location, body } && page_router_item(body)
            == Some(item),
        !is_note(item),
        items_of(member(member(Some(item), "video"@), "bit_rate"@)) == Some(rates),
        forall|i: int|
            0 <= i < rates.len() ==> (rate_url(#[trigger] rates[i]) matches Some(u) && u.len() > 0),
        forall|i: int| 0 <= i < probes.len() ==> redirect_target(#[trigger] probes[i]) is None,
        probes.len() >= rates.len() + 1,
    ensures
        probed(after_page(video_id, page, web_id, a_bogus), probes) == StepView::Done(
            item_record(item),
        ),
        item_record(item).video_qualities.len() == rates.len(),
        forall|i: int|
            #![trigger rates[i]]
            0 <= i < rates.len() ==> {
                let q = item_record(item).video_qualities[i];
                &&& q.video_url == without_watermark(rate_url(rates[i])->Some_0)
                &&& text_of(member(Some(rates[i]), "gear_name"@)) matches Some(name) ==> q.quality
                    == name
            },
{
    lemma_every_bit_rate_becomes_a_quality(item, rates);
    lemma_probes_without_target_keep_the_record(item_record(item), probes);
    crate::models::lemma_normalized_is_exclusive(item_record(item));
    assert(item_record(item).normalized() == item_record(item));
}

/// Where what is left of an address after the replacement begins with the
/// last `6 - t` characters of the watermark token, the address itself
/// holds them there.
proof fn lemma_clean_prefix(s: Seq<char>, j: int, t: int)
    requires
        1 <= t <= 6,
        0 <= j <= s.len(),
        replaced_from(s, "playwm"@, "play"@, j).len() >= 6 - t,
        forall|x: int|
            0 <= x < 6 - t ==> #[trigger] replaced_from(s, "playwm"@, "play"@, j)[x] == "playwm"@[t
                + x],
    ensures
        j + (6 - t) <= s.len(),
        forall|y: int| j <= y < j + (6 - t) ==> #[trigger] s[y] == "playwm"@[t + (y - j)],
    decreases 6 - t,
{
    reveal_strlit("playwm");
    reveal_strlit("play");
    let r = replaced_from(s, "playwm"@, "play"@, j);
    if t < 6 {
        assert(j < s.len());
        assert(r[0] == "playwm"@[t + 0]);
        if matches_at(s, "playwm"@, j) {
            let rest = replaced_from(s, "playwm"@, "play"@, j + 6);
            assert(r == "play"@ + rest);
            assert(r[0] == 'p');
            assert(false);
        } else {
            let rest = replaced_from(s, "playwm"@, "play"@, j + 1);
            assert(r == seq![s[j]] + rest);
            assert forall|x: int| 0 <= x < 6 - (t + 1) implies #[trigger] rest[x] == "playwm"@[t + 1
                + x] by {
                assert(rest[x] == r[x + 1]);
            }
            lemma_clean_prefix(s, j + 1, t + 1);
        }
    }
}

/// What is left of an address after the replacement holds no watermark
/// token, where the address holds no token with `wm` behind it.
proof fn lemma_clean_holds_none(s: Seq<char>, i: int, k: int)
    requires
        0 <= i,
        0 <= k,
        forall|q: int| !#[trigger] matches_at(s, "playwmwm"@, q),
    ensures
        !matches_at(replaced_from(s, "playwm"@, "play"@, i), "playwm"@, k),
    decreases s.len() - i,
{
    reveal_strlit("playwm");
    reveal_strlit("play");
    reveal_strlit("playwmwm");
    let p = "playwm"@;
    let r = replaced_from(s, p, "play"@, i);
    if i < s.len() && matches_at(r, p, k) {
        assert forall|y: int| k <= y < k + 6 implies #[trigger] r[y] == p[y - k] by {
            assert(r.subrange(k, k + 6)[y - k] == r[y]);
        }
        if matches_at(s, p, i) {
            let rest = replaced_from(s, p, "play"@, i + 6);
            assert(r == "play"@ + rest);
            assert forall|y: int| i <= y < i + 6 implies #[trigger] s[y] == p[y - i] by {
                assert(s.subrange(i, i + 6)[y - i] == s[y]);
            }
            if k >= 4 {
                assert(rest.subrange(k - 4, k - 4 + 6) =~= r.subrange(k, k + 6));
                lemma_clean_holds_none(s, i + 6, k - 4);
            } else if k == 0 {
                assert(r[4] == 'w' && r[5] == 'm');
                assert(rest[0] == r[4] && rest[1] == r[5]);
                assert(i + 6 < s.len());
                if matches_at(s, p, i + 6) {
                    assert(rest == "play"@ + replaced_from(s, p, "play"@, i + 6 + 6));
                    assert(false);
                }
                let after = replaced_from(s, p, "play"@, i + 7);
                assert(rest == seq![s[i + 6]] + after);
                assert(after[0] == rest[1]);
                assert(i + 7 < s.len());
                if matches_at(s, p, i + 7) {
                    assert(after == "play"@ + replaced_from(s, p, "play"@, i + 7 + 6));
                    assert(false);
                }
                assert(after == seq![s[i + 7]] + replaced_from(s, p, "play"@, i + 8));
                assert(s[i + 6] == 'w' && s[i + 7] == 'm');
                assert(s.subrange(i, i + 8) =~= "playwmwm"@);
                assert(matches_at(s, "playwmwm"@, i));
            } else {
                assert(r[k] == p[0]);
                assert(r[k] == "play"@[k]);
            }
        } else {
            let rest = replaced_from(s, p, "play"@, i + 1);
            assert(r == seq![s[i]] + rest);
            if k >= 1 {
                assert(rest.subrange(k - 1, k - 1 + 6) =~= r.subrange(k, k + 6));
                lemma_clean_holds_none(s, i + 1, k - 1);
            } else {
                assert(r[0] == p[0]);
                assert forall|x: int| 0 <= x < 6 - 1 implies #[trigger] rest[x] == p[1 + x] by {
                    assert(rest[x] == r[x + 1]);
                }
                lemma_clean_prefix(s, i + 1, 1);
                assert(s.subrange(i, i + 6) =~= p);
            }
        }
    }
}

/// An address without its watermark token holds no watermark token, unless
/// the token stands in the address with `wm` right behind it: there the
/// replacement leaves `play` before that `wm`, which is the token again.
pub proof fn lemma_no_watermark_token_is_left(u: Seq<char>)
    requires
        !contains(u, "playwmwm"@),
    ensures
        !contains(without_watermark(u), "playwm"@),
{
    lemma_find_from(u, "playwmwm"@, 0);
    assert forall|q: int| !#[trigger] matches_at(u, "playwmwm"@, q) by {
        if q < 0 {
        }
    }
    let r = without_watermark(u);
    lemma_find_from(r, "playwm"@, 0);
    if let Some(k) = find_from(r, "playwm"@, 0) {
        lemma_clean_holds_none(u, 0, k);
    }
}

impl DouYin {
    /// The previews of the posts that the router data of a publisher's
    /// page, given as JSON text, lists.
    pub fn parse_router_data(json_str: &str) -> (r: Result<Vec<VideoPreview>, ResolutionError>)
        ensures
            match r {
                Ok(previews) => router_previews(json_str@) == Ok::<
                    Seq<VideoPreviewView>,
                    ErrorView,
                >(previews_view(previews@)),
                Err(e) => router_previews(json_str@) == Err::<Seq<VideoPreviewView>, ErrorView>(e@),
            },
    {
        let root = match Json::parse(json_str) {
            Some(root) => root,
            None => {
                let shown = chars_of(json_str);
                let snippet = take_chars(shown.as_slice(), 100);
                return Err(
                    ResolutionError::MalformedEmbeddedState(string_of(snippet.as_slice())),
                );
            },
        };
        let mut previews: Vec<VideoPreview> = Vec::new();
        assert(previews_view(previews@) =~= Seq::empty());
        let nodes = match members(get(Some(&root), "loaderData")) {
            Some(nodes) => nodes,
            None => {
                return Ok(previews);
            },
        };
        let mut i: usize = 0;
        while i < nodes.len()
            invariant
                i <= nodes@.len(),
                previews_view(previews@) == loader_previews_until(nodes@, i as int),
            decreases nodes@.len() - i,
        {
            let ghost before = previews_view(previews@);
            match items(get(Some(&nodes[i].1), "aweme_list")) {
                Some(list) => {
                    let mut j: usize = 0;
                    while j < list.len()
                        invariant
                            j <= list@.len(),
                            previews_view(previews@) == before + list_previews_until(
                                list@,
                                j as int,
                            ),
                        decreases list@.len() - j,
                    {
                        let item = Some(&list[j]);
                        let id = string_or_empty(get(item, "aweme_id"));
                        if !id.as_str().is_empty() {
                            let is_video = match items(get(item, "images")) {
                                Some(imgs) => imgs.len() == 0,
                                None => true,
                            };
                            let cover_url = match items(
                                get(get(get(item, "video"), "cover"), "url_list"),
                            ) {
                                Some(urls) => Self::get_no_webp_url(urls),
                                None => String::new(),
                            };
                            let preview = VideoPreview {
                                id,
                                title: string_or_empty(get(item, "desc")),
                                cover_url,
                                video_url: String::new(),
                                is_video,
                                platform: PLATFORM.to_owned(),
                            };
                            proof {
                                lemma_previews_view_push(previews@, preview);
                            }
                            previews.push(preview);
                        }
                        j += 1;
                    }
                },
                None => {},
            }
            i += 1;
        }
        Ok(previews)
    }

    /// The posts of a publisher cannot be had by requests alone: the list
    /// is taken from the router data of the publisher's page, which a
    /// browser window has to load. Every call fails with
    /// `UnsupportedPlatform`.
    pub fn fetch_posts(sec_uid: &str) -> (r: Result<Vec<VideoPreview>, ResolutionError>)
        ensures
            r matches Err(e) && e@ == ErrorView::UnsupportedPlatform,
    {
        Err(ResolutionError::UnsupportedPlatform)
    }

    /// The first step of resolving a share text of the platform.
    pub fn parse_share_url(share_url: &str) -> (step: Step)
        ensures
            step@ == started(share_url@),
            step@.is_exclusive(),
    {
        let url_str = link_of(share_url);
        let parts = match UrlParts::parse(url_str.as_str()) {
            Some(p) => p,
            None => {
                return Step::Failed(ResolutionError::InvalidShareInput);
            },
        };
        let host = parts.host_chars();
        let short = chars_of("v.douyin.com");
        let ies = chars_of("iesdouyin.com");
        let main = chars_of("douyin.com");
        if has(host.as_slice(), short.as_slice()) {
            Step::Fetch(probe_request(url_str, DEFAULT_USER_AGENT), Pending::DouyinRedirect)
        } else if has(host.as_slice(), ies.as_slice()) || has(host.as_slice(), main.as_slice()) {
            Self::parse_pc_share_url(url_str.as_str())
        } else {
            Step::Failed(ResolutionError::UnsupportedPlatform)
        }
    }

    /// The request for the share page of the item that `share_url` names.
    pub fn parse_pc_share_url(share_url: &str) -> (step: Step)
        ensures
            step@ == to_page(video_id_of(share_url@)),
    {
        match Self::parse_video_id_from_path(share_url) {
            Ok(video_id) => {
                let url = str_concat("https://www.douyin.com/share/video/", video_id.as_str());
                let request = HttpRequest::get(url).header("User-Agent", DEFAULT_USER_AGENT);
                Step::Fetch(request, Pending::DouyinPage { video_id })
            },
            Err(e) => Step::Failed(e),
        }
    }

    /// What follows the answer of a short link.
    pub fn parse_app_share_url(event: &HttpEvent) -> (step: Step)
        ensures
            step@ == after_redirect(event@),
            step@.is_exclusive(),
    {
        match event {
            HttpEvent::Unreachable => Step::Failed(ResolutionError::UpstreamUnreachable),
            _ => match resolve_redirect(event) {
                Ok(location) => Self::parse_pc_share_url(location.as_str()),
                Err(e) => Step::Failed(e),
            },
        }
    }

    /// The step after the slots before `next` of `record` are settled.
    pub fn follow(record: VideoParseInfo, next: usize) -> (step: Step)
        ensures
            step@ == follow_up(record@, next as int),
            step@.is_exclusive(),
    {
        if next == 0 && !record.video_url.as_str().is_empty() {
            let url = record.video_url.clone();
            return Step::Fetch(
                probe_request(url, DEFAULT_USER_AGENT),
                Pending::DouyinCdn { record, next: 0 },
            );
        }
        let k: usize = if next == 0 {
            1
        } else {
            next
        };
        if k <= record.video_qualities.len() {
            let url = record.video_qualities[k - 1].video_url.clone();
            Step::Fetch(
                probe_request(url, DEFAULT_USER_AGENT),
                Pending::DouyinCdn { record, next: k },
            )
        } else {
            Step::Done(record.normalize())
        }
    }

    /// The request to the detail API for the note `video_id`.
    pub fn slides(video_id: &str, web_id: &str, a_bogus: &str) -> (r: HttpRequest)
        ensures
            r@ == slides_request(video_id@, web_id@, a_bogus@),
    {
        let mut url: Vec<char> = Vec::new();
        append_str(
            &mut url,
            "https://www.douyin.com/web/api/v2/aweme/slidesinfo/?reflow_source=reflow_page&web_id=",
        );
        append_str(&mut url, web_id);
        append_str(&mut url, "&device_id=");
        append_str(&mut url, web_id);
        append_str(&mut url, "&aweme_ids=%5B");
        append_str(&mut url, video_id);
        append_str(&mut url, "%5D&request_source=200&a_bogus=");
        append_str(&mut url, a_bogus);
        HttpRequest::get(string_of(url.as_slice())).header("User-Agent", DEFAULT_USER_AGENT)
    }

    /// What follows the share page of `video_id`, with the tokens to use
    /// should the detail API be needed.
    pub fn parse_video_id(video_id: &str, event: &HttpEvent, web_id: &str, a_bogus: &str) -> (step:
        Step)
        ensures
            step@ == after_page(video_id@, event@, web_id@, a_bogus@),
            step@.is_exclusive(),
    {
        let body = match event {
            HttpEvent::Unreachable => {
                return Step::Failed(ResolutionError::UpstreamUnreachable);
            },
            HttpEvent::Response { status, location, body } => body,
        };
        match extract(body.as_str(), "window._ROUTER_DATA") {
            Ok(root) => {
                match Self::find_item(&root) {
                    Some(item) => {
                        return Self::follow(Self::record_of_item(item), 0);
                    },
                    None => {},
                }
            },
            Err(_) => {},
        }
        let note = match get_canonical_from_html(body.as_str()) {
            Some(canonical) => str_contains(canonical.as_str(), "/note/"),
            None => false,
        };
        if note {
            Step::Fetch(Self::slides(video_id, web_id, a_bogus), Pending::DouyinSlides)
        } else {
            Step::Failed(ResolutionError::UpstreamFormatChanged)
        }
    }

    /// What follows the answer of the detail API.
    pub fn parse_slides(event: &HttpEvent) -> (step: Step)
        ensures
            step@ == after_slides(event@),
            step@.is_exclusive(),
    {
        let body = match event {
            HttpEvent::Unreachable => {
                return Step::Failed(ResolutionError::UpstreamUnreachable);
            },
            HttpEvent::Response { status, location, body } => body,
        };
        let api = Json::parse(body.as_str());
        match not_null(at(get(api.as_ref(), "aweme_details"), 0)) {
            Some(detail) => Self::follow(Self::record_of_item(detail), 0),
            None => Step::Failed(ResolutionError::UpstreamFormatChanged),
        }
    }

    /// `record` with the address in slot `next` replaced by `target`, made
    /// exclusive.
    pub fn set_slot(record: VideoParseInfo, next: usize, target: String) -> (r: VideoParseInfo)
        ensures
            r@ == with_slot(record@, next as int, target@),
            r@.is_exclusive(),
    {
        Self::replace_slot(record, next, target).normalize()
    }

    /// `record` with the address in slot `next` replaced by `target`.
    fn replace_slot(record: VideoParseInfo, next: usize, target: String) -> (r: VideoParseInfo)
        ensures
            r@ == slot_replaced(record@, next as int, target@),
    {
        let mut record = record;
        if next == 0 {
            record.video_url = target;
            record
        } else if next <= record.video_qualities.len() {
            let updated = VideoQuality {
                quality: record.video_qualities[next - 1].quality.clone(),
                video_url: target,
                size: record.video_qualities[next - 1].size,
            };
            let ghost before = record.video_qualities@;
            let mut qualities = record.video_qualities;
            qualities.set(next - 1, updated);
            assert(qualities_view(qualities@) =~= qualities_view(before).update(
                next - 1,
                updated@,
            ));
            record.video_qualities = qualities;
            record
        } else {
            record
        }
    }

    /// What follows the answer of the media address in slot `next`.
    pub fn get_redirect_url(record: VideoParseInfo, next: usize, event: &HttpEvent) -> (step: Step)
        ensures
            step@ == after_cdn(record@, next, event@),
            step@.is_exclusive(),
    {
        let updated = match resolve_redirect(event) {
            Ok(target) => Self::set_slot(record, next, target),
            Err(_) => record,
        };
        if next >= updated.video_qualities.len() {
            Step::Done(updated.normalize())
        } else {
            Self::follow(updated, next + 1)
        }
    }

    /// Random tokens for the detail API: a client identity and a signature
    /// seed.
    pub fn fresh_tokens() -> (tokens: (String, String))
        ensures
            is_web_id(tokens.0@),
            is_signature_seed(tokens.1@),
    {
        let digits = generate_fixed_length_numeric_id(15);
        let web_id = str_concat("75", digits.as_str());
        let a_bogus = rand_seq(64);
        (web_id, a_bogus)
    }

    /// The content identifier in a link of the platform.
    pub fn parse_video_id_from_path(url_path: &str) -> (r: Result<String, ResolutionError>)
        ensures
            match r {
                Ok(id) => video_id_of(url_path@) == Some(id@),
                Err(e) => video_id_of(url_path@) is None && e@ == ErrorView::InvalidShareInput,
            },
    {
        let parts = match UrlParts::parse(url_path) {
            Some(p) => p,
            None => {
                return Err(ResolutionError::InvalidShareInput);
            },
        };
        let path = chars_of(parts.path.as_str());
        let bare = trim(path.as_slice(), CharClass::Only('/'));
        let named = match parts.query("modal_id") {
            Some(v) => {
                if !v.as_str().is_empty() {
                    chars_of(v.as_str())
                } else {
                    last_piece_of(bare.as_slice(), '/')
                }
            },
            None => last_piece_of(bare.as_slice(), '/'),
        };
        if numeric_id(named.as_slice()) {
            Ok(string_of(named.as_slice()))
        } else {
            Err(ResolutionError::InvalidShareInput)
        }
    }

    /// The item that the router data `root` describes.
    pub fn find_item<'a>(root: &'a Json) -> (r: Option<&'a Json>)
        ensures
            plain(r) == router_item(*root),
    {
        let ms = match members(get(Some(root), "loaderData")) {
            Some(ms) => ms,
            None => {
                return None;
            },
        };
        let mut i: usize = 0;
        while i < ms.len()
            invariant
                i <= ms@.len(),
                router_item(*root) == first_page_item(ms@, i as int),
            decreases ms@.len() - i,
        {
            let key = ms[i].0.as_str();
            if str_contains(key, "/page") && (str_starts_with(key, "video_") || str_starts_with(
                key,
                "note_",
            )) {
                let item = not_null(at(get(get(Some(&ms[i].1), "videoInfoRes"), "item_list"), 0));
                if item.is_some() {
                    return item;
                }
            }
            i += 1;
        }
        None
    }

    /// The address to use of a list of addresses of one image.
    pub fn get_no_webp_url(url_list: &Vec<Json>) -> (r: String)
        ensures
            r@ == no_webp_url(url_list@),
    {
        let mut i: usize = 0;
        while i < url_list.len()
            invariant
                i <= url_list@.len(),
                first_plain_url(url_list@, 0) == first_plain_url(url_list@, i as int),
            decreases url_list@.len() - i,
        {
            match text(Some(&url_list[i])) {
                Some(url) => {
                    if !str_contains(url.as_str(), ".webp") {
                        return url.clone();
                    }
                },
                None => {},
            }
            i += 1;
        }
        if url_list.len() > 0 {
            string_or_empty(Some(&url_list[0]))
        } else {
            String::new()
        }
    }

    /// The images of `item`.
    pub fn images_of(item: &Json) -> (r: Vec<ImgInfo>)
        ensures
            images_view(r@) == item_images(*item),
    {
        let mut images: Vec<ImgInfo> = Vec::new();
        let imgs = match items(get(Some(item), "images")) {
            Some(imgs) => imgs,
            None => {
                return images;
            },
        };
        let mut i: usize = 0;
        while i < imgs.len()
            invariant
                i <= imgs@.len(),
                images_view(images@) == images_until(imgs@, i as int),
            decreases imgs@.len() - i,
        {
            let img = Some(&imgs[i]);
            match items(get(img, "url_list")) {
                Some(url_list) => {
                    let url = Self::get_no_webp_url(url_list);
                    if !url.as_str().is_empty() {
                        let live = match text(
                            at(get(get(get(img, "video"), "play_addr"), "url_list"), 0),
                        ) {
                            Some(l) => Some(l.clone()),
                            None => None,
                        };
                        let image = ImgInfo { url, live_photo_url: live };
                        proof {
                            lemma_images_view_push(images@, image);
                        }
                        images.push(image);
                    }
                },
                None => {},
            }
            i += 1;
        }
        images
    }

    /// The alternate qualities that the list of bit rates of `item` gives.
    pub fn qualities_of(item: &Json) -> (r: Vec<VideoQuality>)
        ensures
            qualities_view(r@) == listed_qualities(*item),
    {
        let mut qualities: Vec<VideoQuality> = Vec::new();
        let rates = match items(get(get(Some(item), "video"), "bit_rate")) {
            Some(rates) => rates,
            None => {
                return qualities;
            },
        };
        let mut i: usize = 0;
        while i < rates.len()
            invariant
                i <= rates@.len(),
                qualities_view(qualities@) == qualities_until(rates@, i as int),
            decreases rates@.len() - i,
        {
            let br = Some(&rates[i]);
            match text(at(get(get(br, "play_addr"), "url_list"), 0)) {
                Some(v_url) => {
                    let clean_url = str_replace(v_url.as_str(), "playwm", "play");
                    if !clean_url.as_str().is_empty() {
                        let quality = match text(get(br, "gear_name")) {
                            Some(name) => name.clone(),
                            None => UNKNOWN_QUALITY.to_owned(),
                        };
                        let size = as_u64(get(get(br, "play_addr"), "data_size"));
                        let q = VideoQuality { quality, video_url: clean_url, size };
                        proof {
                            lemma_qualities_view_push(qualities@, q);
                        }
                        qualities.push(q);
                    }
                },
                None => {},
            }
            i += 1;
        }
        qualities
    }

    /// The record of `item`, before any of its addresses is followed.
    pub fn record_of_item(item: &Json) -> (r: VideoParseInfo)
        ensures
            r@ == item_record(*item),
            r@.is_exclusive(),
    {
        let note = match items(get(Some(item), "images")) {
            Some(imgs) => imgs.len() > 0,
            None => false,
        };
        let images = Self::images_of(item);
        let mut video_url = String::new();
        let mut video_qualities: Vec<VideoQuality> = Vec::new();
        assert(qualities_view(video_qualities@) =~= Seq::empty());
        if !note {
            video_qualities = Self::qualities_of(item);
            if video_qualities.len() > 0 {
                video_url = video_qualities[0].video_url.clone();
            } else {
                match text(at(get(get(get(Some(item), "video"), "play_addr"), "url_list"), 0)) {
                    Some(v_url) => {
                        video_url = str_replace(v_url.as_str(), "playwm", "play");
                    },
                    None => {},
                }
            }
        }
        let cover_url = match items(get(get(get(Some(item), "video"), "cover"), "url_list")) {
            Some(list) => Self::get_no_webp_url(list),
            None => String::new(),
        };
        let author_node = get(Some(item), "author");
        let author = Author {
            uid: string_or_empty(get(author_node, "sec_uid")),
            name: string_or_empty(get(author_node, "nickname")),
            avatar: string_or_empty(at(get(get(author_node, "avatar_thumb"), "url_list"), 0)),
        };
        let title = string_or_empty(get(Some(item), "desc"));
        let plain = VideoParseInfo::plain(author, title, video_url, cover_url, images, PLATFORM);
        let record = VideoParseInfo { video_qualities, ..plain };
        record.normalize()
    }

    /// The record that the router data of a share page, given as JSON text,
    /// describes.
    pub fn parse_video_data_from_json(json_str: &str) -> (r: Result<
        VideoParseInfo,
        ResolutionError,
    >)
        ensures
            match r {
                Ok(record) => router_record(json_str@) == Ok::<VideoParseInfoView, ErrorView>(
                    record@,
                ) && record@.is_exclusive(),
                Err(e) => router_record(json_str@) == Err::<VideoParseInfoView, ErrorView>(e@),
            },
    {
        let root = match Json::parse(json_str) {
            Some(root) => root,
            None => {
                let shown = chars_of(json_str);
                let snippet = take_chars(shown.as_slice(), 100);
                return Err(
                    ResolutionError::MalformedEmbeddedState(string_of(snippet.as_slice())),
                );
            },
        };
        match Self::find_item(&root) {
            Some(item) => Ok(Self::record_of_item(item)),
            None => Err(ResolutionError::UpstreamFormatChanged),
        }
    }
}

} // verus!
