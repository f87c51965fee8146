//! The entry of the library: which platform a share text belongs to, the
//! first step of its resolution, and the step after each answer.

use vstd::prelude::*;

use crate::error::{ErrorView, ResolutionError};
use crate::link::{url_parse, UrlParts};
use crate::models::{lemma_normalized_is_exclusive, VideoParseInfoView};
use crate::parser::bilibili::Bilibili;
use crate::parser::douyin::{is_signature_seed, is_web_id, DouYin};
use crate::parser::kuaishou::Kuaishou;
use crate::parser::pipixia::PiPiXia;
use crate::parser::utils::{link_of, share_link};
use crate::parser::weibo::Weibo;
use crate::parser::xhs::Xiaohongshu;
use crate::parser::xigua::XiGua;
use crate::protocol::{HttpEvent, HttpEventView, Pending, PendingView, Step, StepView};
use crate::text::{chars_of, contains, has};

verus! {

/// The platforms that the library resolves links of.
#[derive(Debug, Clone, Copy, PartialEq, Eq, Structural)]
pub enum Platform {
    DouYin,
    Xiaohongshu,
    PiPiXia,
    Weibo,
    Kuaishou,
    Bilibili,
    XiGua,
}

/// The number of entries of the platform table.
pub const TABLE_LENGTH: usize = 12;

/// The platform table: entry `i` names a piece of a host name and the
/// platform of every host that holds it. Earlier entries go first.
pub open spec fn table_entry(i: int) -> (Seq<char>, Platform) {
    if i == 0 {
        ("douyin.com"@, Platform::DouYin)
    } else if i == 1 {
        ("iesdouyin.com"@, Platform::DouYin)
    } else if i == 2 {
        ("xhslink.com"@, Platform::Xiaohongshu)
    } else if i == 3 {
        ("xiaohongshu.com"@, Platform::Xiaohongshu)
    } else if i == 4 {
        ("pipix.com"@, Platform::PiPiXia)
    } else if i == 5 {
        ("weibo.com"@, Platform::Weibo)
    } else if i == 6 {
        ("weibo.cn"@, Platform::Weibo)
    } else if i == 7 {
        ("kuaishou.com"@, Platform::Kuaishou)
    } else if i == 8 {
        ("chenzhongtech.com"@, Platform::Kuaishou)
    } else if i == 9 {
        ("bilibili.com"@, Platform::Bilibili)
    } else if i == 10 {
        ("b23.tv"@, Platform::Bilibili)
    } else {
        ("ixigua.com"@, Platform::XiGua)
    }
}

/// Entry `i` of the platform table.
pub fn entry(i: usize) -> (e: (&'static str, Platform))
    requires
        i < TABLE_LENGTH,
    ensures
        (e.0@, e.1) == table_entry(i as int),
{
    if i == 0 {
        ("douyin.com", Platform::DouYin)
    } else if i == 1 {
        ("iesdouyin.com", Platform::DouYin)
    } else if i == 2 {
        ("xhslink.com", Platform::Xiaohongshu)
    } else if i == 3 {
        ("xiaohongshu.com", Platform::Xiaohongshu)
    } else if i == 4 {
        ("pipix.com", Platform::PiPiXia)
    } else if i == 5 {
        ("weibo.com", Platform::Weibo)
    } else if i == 6 {
        ("weibo.cn", Platform::Weibo)
    } else if i == 7 {
        ("kuaishou.com", Platform::Kuaishou)
    } else if i == 8 {
        ("chenzhongtech.com", Platform::Kuaishou)
    } else if i == 9 {
        ("bilibili.com", Platform::Bilibili)
    } else if i == 10 {
        ("b23.tv", Platform::Bilibili)
    } else {
        ("ixigua.com", Platform::XiGua)
    }
}

/// The platform of the first entry at or after position `i` of the table
/// whose piece `host` holds.
pub open spec fn platform_from(host: Seq<char>, i: int) -> Option<Platform>
    decreases TABLE_LENGTH - i,
{
    if i < 0 || i >= TABLE_LENGTH {
        None
    } else if contains(host, table_entry(i).0) {
        Some(table_entry(i).1)
    } else {
        platform_from(host, i + 1)
    }
}

/// The platform of a host: that of the first entry of the table that
/// matches it.
pub open spec fn platform_of(host: Seq<char>) -> Option<Platform> {
    platform_from(host, 0)
}

/// The platform of `host`.
pub fn platform_of_host(host: &[char]) -> (r: Option<Platform>)
    ensures
        r == platform_of(host@),
{
    let mut i: usize = 0;
    while i < TABLE_LENGTH
        invariant
            i <= TABLE_LENGTH,
            platform_of(host@) == platform_from(host@, i as int),
        decreases TABLE_LENGTH - i,
    {
        let e = entry(i);
        let piece = chars_of(e.0);
        if has(host, piece.as_slice()) {
            return Some(e.1);
        }
        i += 1;
    }
    None
}

/// The first step that `platform` takes on a share text.
pub open spec fn started_on(platform: Platform, raw: Seq<char>) -> StepView {
    match platform {
        Platform::DouYin => crate::parser::douyin::started(raw),
        Platform::Xiaohongshu => crate::parser::xhs::started(raw),
        Platform::PiPiXia => crate::parser::pipixia::started(raw),
        Platform::Weibo => crate::parser::weibo::started(raw),
        Platform::Kuaishou => crate::parser::kuaishou::started(raw),
        Platform::Bilibili => crate::parser::bilibili::started(raw),
        Platform::XiGua => crate::parser::xigua::started(raw),
    }
}

/// Where the resolution of a share text starts: with the platform of the
/// host of its link. A text without a link that is no link itself is
/// `InvalidShareInput`, a host of no platform `UnsupportedPlatform`.
pub open spec fn started(raw: Seq<char>) -> StepView {
    match url_parse(share_link(raw)) {
        Some(parts) => match platform_of(parts.host_text()) {
            Some(platform) => started_on(platform, raw),
            None => StepView::Failed(ErrorView::UnsupportedPlatform),
        },
        None => StepView::Failed(ErrorView::InvalidShareInput),
    }
}

/// The step after the answer `event` to the request that `pending` waits
/// for. `web_id` and `a_bogus` are the tokens for the one request that
/// takes random ones.
pub open spec fn resumed(
    pending: PendingView,
    event: HttpEventView,
    web_id: Seq<char>,
    a_bogus: Seq<char>,
) -> StepView {
    match pending {
        PendingView::DouyinRedirect => crate::parser::douyin::after_redirect(event),
        PendingView::DouyinPage { video_id } => crate::parser::douyin::after_page(
            video_id,
            event,
            web_id,
            a_bogus,
        ),
        PendingView::DouyinSlides => crate::parser::douyin::after_slides(event),
        PendingView::DouyinCdn { record, next } => crate::parser::douyin::after_cdn(
            record,
            next,
            event,
        ),
        PendingView::XhsPage => crate::parser::xhs::after_page(event),
        PendingView::PipixiaRedirect => crate::parser::pipixia::after_redirect(event),
        PendingView::PipixiaItem => crate::parser::pipixia::after_item(event),
        PendingView::WeiboVideo => crate::parser::weibo::after_video(event),
        PendingView::WeiboStatus { original_url } => crate::parser::weibo::after_status(
            original_url,
            event,
        ),
        PendingView::WeiboPostVideo { record } => crate::parser::weibo::after_post_video(
            record,
            event,
        ),
        PendingView::WeiboDesktop => crate::parser::weibo::after_desktop(event),
        PendingView::KuaishouRedirect { url, hops } => crate::parser::kuaishou::after_redirect(
            url,
            hops,
            event,
        ),
        PendingView::KuaishouPage => crate::parser::kuaishou::after_page(event),
        PendingView::BilibiliShort => crate::parser::bilibili::after_short(event),
        PendingView::BilibiliView { bvid } => crate::parser::bilibili::after_view(bvid, event),
        PendingView::BilibiliPlay { record } => crate::parser::bilibili::after_play(record, event),
        PendingView::XiguaRedirect { url } => crate::parser::xigua::after_redirect(url, event),
        PendingView::XiguaInfo => crate::parser::xigua::after_info(event),
        PendingView::XiguaVod { record } => crate::parser::xigua::after_vod(record, event),
    }
}

/// The first step of resolving the share text `raw`.
pub fn start(raw: &str) -> (step: Step)
    ensures
        step@ == started(raw@),
        step@.is_exclusive(),
{
    let link = link_of(raw);
    let parts = match UrlParts::parse(link.as_str()) {
        Some(parts) => parts,
        None => {
            return Step::Failed(ResolutionError::InvalidShareInput);
        },
    };
    let host = parts.host_chars();
    match platform_of_host(host.as_slice()) {
        Some(Platform::DouYin) => DouYin::parse_share_url(raw),
        Some(Platform::Xiaohongshu) => Xiaohongshu::parse_share_url(raw),
        Some(Platform::PiPiXia) => PiPiXia::parse_share_url(raw),
        Some(Platform::Weibo) => Weibo::parse_share_url(raw),
        Some(Platform::Kuaishou) => Kuaishou::parse_share_url(raw),
        Some(Platform::Bilibili) => Bilibili::parse_share_url(raw),
        Some(Platform::XiGua) => XiGua::parse_share_url(raw),
        None => Step::Failed(ResolutionError::UnsupportedPlatform),
    }
}

/// The step after the answer `event` to the request that `pending` waited
/// for, with the tokens to use where a request takes random ones.
pub fn resume_with(pending: Pending, event: &HttpEvent, web_id: &str, a_bogus: &str) -> (step: Step)
    ensures
        step@ == resumed(pending@, event@, web_id@, a_bogus@),
        step@.is_exclusive(),
{
    match pending {
        Pending::DouyinRedirect => DouYin::parse_app_share_url(event),
        Pending::DouyinPage { video_id } => DouYin::parse_video_id(
            video_id.as_str(),
            event,
            web_id,
            a_bogus,
        ),
        Pending::DouyinSlides => DouYin::parse_slides(event),
        Pending::DouyinCdn { record, next } => DouYin::get_redirect_url(record, next, event),
        Pending::XhsPage => Xiaohongshu::parse_page(event),
        Pending::PipixiaRedirect => PiPiXia::parse_redirect(event),
        Pending::PipixiaItem => PiPiXia::parse_video_id(event),
        Pending::WeiboVideo => Weibo::parse_video(event),
        Pending::WeiboStatus { original_url } => Weibo::parse_post_url(original_url, event),
        Pending::WeiboPostVideo { record } => Weibo::parse_post_video(record, event),
        Pending::WeiboDesktop => Weibo::parse_html_page(event),
        Pending::KuaishouRedirect { url, hops } => Kuaishou::follow_redirect(url, hops, event),
        Pending::KuaishouPage => Kuaishou::parse_page(event),
        Pending::BilibiliShort => Bilibili::get_bvid_from_short_url(event),
        Pending::BilibiliView { bvid } => Bilibili::parse_view(bvid.as_str(), event),
        Pending::BilibiliPlay { record } => Bilibili::parse_play(record, event),
        Pending::XiguaRedirect { url } => XiGua::parse_redirect(url.as_str(), event),
        Pending::XiguaInfo => XiGua::parse_info(event),
        Pending::XiguaVod { record } => XiGua::parse_video_id(record, event),
    }
}

/// The step after the answer `event` to the request that `pending` waited
/// for. Where the next request takes random tokens, they are drawn here.
pub fn resume(pending: Pending, event: &HttpEvent) -> (step: Step)
    ensures
        exists|web_id: Seq<char>, a_bogus: Seq<char>|
            is_web_id(web_id) && is_signature_seed(a_bogus) && step@ == resumed(
                pending@,
                event@,
                web_id,
                a_bogus,
            ),
        step@.is_exclusive(),
{
    let tokens = DouYin::fresh_tokens();
    resume_with(pending, event, tokens.0.as_str(), tokens.1.as_str())
}

/// No step of a resolution hands out a record that is both a gallery and a
/// video: wherever a record has images, it has neither a primary video
/// link nor alternate qualities.
pub proof fn lemma_records_are_exclusive(
    raw: Seq<char>,
    pending: PendingView,
    event: HttpEventView,
    web_id: Seq<char>,
    a_bogus: Seq<char>,
)
    ensures
        started(raw).is_exclusive(),
        resumed(pending, event, web_id, a_bogus).is_exclusive(),
{
    assert forall|record: VideoParseInfoView| #[trigger] record.normalized().is_exclusive() by {
        lemma_normalized_is_exclusive(record);
    }
}


/// How far a pending request is from the end of its resolution: the number
/// of stages that may still follow, and, for a stage that asks more than
/// once, the number of requests that it may still make.
pub open spec fn distance(pending: PendingView) -> (nat, nat) {
    match pending {
        PendingView::DouyinRedirect => (4, 0),
        PendingView::DouyinPage { video_id } => (3, 0),
        PendingView::DouyinSlides => (2, 0),
        PendingView::DouyinCdn { record, next } => (
            1,
            if next <= record.video_qualities.len() {
                (record.video_qualities.len() - next) as nat
            } else {
                0
            },
        ),
        PendingView::XhsPage => (1, 0),
        PendingView::PipixiaRedirect => (2, 0),
        PendingView::PipixiaItem => (1, 0),
        PendingView::WeiboVideo => (1, 0),
        PendingView::WeiboStatus { original_url } => (2, 0),
        PendingView::WeiboPostVideo { record } => (1, 0),
        PendingView::WeiboDesktop => (1, 0),
        PendingView::KuaishouRedirect { url, hops } => (
            2,
            if hops <= crate::protocol::MAX_REDIRECT_HOPS {
                (crate::protocol::MAX_REDIRECT_HOPS - hops) as nat
            } else {
                0
            },
        ),
        PendingView::KuaishouPage => (1, 0),
        PendingView::BilibiliShort => (3, 0),
        PendingView::BilibiliView { bvid } => (2, 0),
        PendingView::BilibiliPlay { record } => (1, 0),
        PendingView::XiguaRedirect { url } => (3, 0),
        PendingView::XiguaInfo => (2, 0),
        PendingView::XiguaVod { record } => (1, 0),
    }
}

/// Whether the distance `a` is shorter than `b`: fewer stages, or as many
/// stages and fewer requests.
pub open spec fn closer(a: (nat, nat), b: (nat, nat)) -> bool {
    a.0 < b.0 || (a.0 == b.0 && a.1 < b.1)
}

/// Every answer brings a resolution closer to its end: the request that
/// follows an answer, where one follows, is closer to the end than the
/// request that was answered. So no resolution asks without end, whatever
/// the servers answer.
pub proof fn lemma_every_answer_brings_the_end_closer(
    pending: PendingView,
    event: HttpEventView,
    web_id: Seq<char>,
    a_bogus: Seq<char>,
)
    ensures
        resumed(pending, event, web_id, a_bogus) matches StepView::Fetch(_, next) ==> closer(
            distance(next),
            distance(pending),
        ),
{
}

} // verus!
