//! What a resolution asks of the network and what it is told back. The
//! library decides; its caller performs each request and hands back what
//! came of it.

use vstd::prelude::*;

use crate::error::{ErrorView, ResolutionError};
use crate::models::{text_view, VideoParseInfo, VideoParseInfoView};

verus! {

/// The method of a request.
#[derive(Debug, Clone, Copy, PartialEq, Eq)]
pub enum Method {
    Get,
    Post,
}

/// One HTTP request that the caller is to perform.
#[derive(Debug, Clone, PartialEq, Eq)]
pub struct HttpRequest {
    pub method: Method,
    pub url: String,
    /// Header names with their values, in the order in which they are set.
    pub headers: Vec<(String, String)>,
    pub body: Option<String>,
    /// Whether the client follows redirections by itself.
    pub follow_redirects: bool,
    /// The time allowed for the request, in seconds, where it is limited.
    pub timeout_secs: Option<u64>,
}

pub struct HttpRequestView {
    pub method: Method,
    pub url: Seq<char>,
    pub headers: Seq<(Seq<char>, Seq<char>)>,
    pub body: Option<Seq<char>>,
    pub follow_redirects: bool,
    pub timeout_secs: Option<u64>,
}

/// Header names and values as texts.
pub open spec fn headers_view(headers: Seq<(String, String)>) -> Seq<(Seq<char>, Seq<char>)> {
    Seq::new(headers.len(), |i: int| (headers[i].0@, headers[i].1@))
}

impl View for HttpRequest {
    type V = HttpRequestView;

    open spec fn view(&self) -> HttpRequestView {
        HttpRequestView {
            method: self.method,
            url: self.url@,
            headers: headers_view(self.headers@),
            body: text_view(self.body),
            follow_redirects: self.follow_redirects,
            timeout_secs: self.timeout_secs,
        }
    }
}

impl HttpRequestView {
    /// A `GET` of `url` without headers, redirections followed, no time limit.
    pub open spec fn get(url: Seq<char>) -> HttpRequestView {
        HttpRequestView {
            method: Method::Get,
            url,
            headers: Seq::empty(),
            body: None,
            follow_redirects: true,
            timeout_secs: None,
        }
    }

    /// A `POST` of `body` to `url` without headers.
    pub open spec fn post(url: Seq<char>, body: Seq<char>) -> HttpRequestView {
        HttpRequestView {
            method: Method::Post,
            url,
            headers: Seq::empty(),
            body: Some(body),
            follow_redirects: true,
            timeout_secs: None,
        }
    }

    /// The request with one more header.
    pub open spec fn header(self, name: Seq<char>, value: Seq<char>) -> HttpRequestView {
        HttpRequestView { headers: self.headers.push((name, value)), ..self }
    }

    /// The request with redirections left to the caller.
    pub open spec fn no_redirects(self) -> HttpRequestView {
        HttpRequestView { follow_redirects: false, ..self }
    }

    /// The request with a time limit.
    pub open spec fn timeout(self, secs: u64) -> HttpRequestView {
        HttpRequestView { timeout_secs: Some(secs), ..self }
    }
}

impl HttpRequest {
    /// A `GET` of `url` without headers, redirections followed, no time limit.
    pub fn get(url: String) -> (r: HttpRequest)
        ensures
            r@ == HttpRequestView::get(url@),
    {
        let r = HttpRequest {
            method: Method::Get,
            url,
            headers: Vec::new(),
            body: None,
            follow_redirects: true,
            timeout_secs: None,
        };
        assert(r@.headers =~= Seq::empty());
        r
    }

    /// A `POST` of `body` to `url` without headers.
    pub fn post(url: String, body: String) -> (r: HttpRequest)
        ensures
            r@ == HttpRequestView::post(url@, body@),
    {
        let r = HttpRequest {
            method: Method::Post,
            url,
            headers: Vec::new(),
            body: Some(body),
            follow_redirects: true,
            timeout_secs: None,
        };
        assert(r@.headers =~= Seq::empty());
        r
    }

    /// The request with one more header.
    pub fn header(self, name: &str, value: &str) -> (r: HttpRequest)
        ensures
            r@ == self@.header(name@, value@),
    {
        let mut headers = self.headers;
        let ghost before = headers@;
        headers.push((name.to_owned(), value.to_owned()));
        let r = HttpRequest { headers, ..self };
        assert(r@.headers =~= headers_view(before).push((name@, value@)));
        r
    }

    /// The request with redirections left to the caller.
    pub fn no_redirects(self) -> (r: HttpRequest)
        ensures
            r@ == self@.no_redirects(),
    {
        HttpRequest { follow_redirects: false, ..self }
    }

    /// The request with a time limit.
    pub fn timeout(self, secs: u64) -> (r: HttpRequest)
        ensures
            r@ == self@.timeout(secs),
    {
        HttpRequest { timeout_secs: Some(secs), ..self }
    }
}

/// The `Location` header of a response.
#[derive(Debug, Clone, PartialEq, Eq)]
pub enum Location {
    /// The response has no such header.
    Missing,
    /// The header is there, but its value is no text.
    Unreadable,
    /// The header's value.
    Target(String),
}

pub enum LocationView {
    Missing,
    Unreadable,
    Target(Seq<char>),
}

impl View for Location {
    type V = LocationView;

    open spec fn view(&self) -> LocationView {
        match self {
            Location::Missing => LocationView::Missing,
            Location::Unreadable => LocationView::Unreadable,
            Location::Target(t) => LocationView::Target(t@),
        }
    }
}

/// What came of a request.
#[derive(Debug, Clone, PartialEq, Eq)]
pub enum HttpEvent {
    /// The server answered.
    Response { status: u16, location: Location, body: String },
    /// No answer could be had, or its body could not be read.
    Unreachable,
}

pub enum HttpEventView {
    Response { status: u16, location: LocationView, body: Seq<char> },
    Unreachable,
}

impl View for HttpEvent {
    type V = HttpEventView;

    open spec fn view(&self) -> HttpEventView {
        match self {
            HttpEvent::Response { status, location, body } => HttpEventView::Response {
                status: *status,
                location: location@,
                body: body@,
            },
            HttpEvent::Unreachable => HttpEventView::Unreachable,
        }
    }
}

/// Whether `status` is of the redirection class.
pub open spec fn is_redirection(status: u16) -> bool {
    300 <= status < 400
}

/// No resolution follows more redirections than this.
pub const MAX_REDIRECT_HOPS: u8 = 5;

/// Where a response redirects to: the value of its `Location` header, where
/// the status is of the redirection class and the header is there.
pub open spec fn redirect_target(event: HttpEventView) -> Option<Seq<char>> {
    match event {
        HttpEventView::Response { status, location: LocationView::Target(t), body } => if is_redirection(
            status,
        ) {
            Some(t)
        } else {
            None
        },
        _ => None,
    }
}

/// The request that asks `url` where it redirects to: a `GET` with the
/// given headers that follows no redirection.
pub fn redirect_request(url: String, headers: Vec<(String, String)>) -> (r: HttpRequest)
    ensures
        r@ == (HttpRequestView { headers: headers_view(headers@), ..HttpRequestView::get(url@) })
            .no_redirects(),
{
    let r = HttpRequest {
        method: Method::Get,
        url,
        headers,
        body: None,
        follow_redirects: false,
        timeout_secs: None,
    };
    r
}

/// Where the answer to a redirect request leads: the `Location` of a
/// response of the redirection class, else `NoRedirectLocation`.
pub fn resolve_redirect(event: &HttpEvent) -> (r: Result<String, ResolutionError>)
    ensures
        match r {
            Ok(t) => redirect_target(event@) == Some(t@),
            Err(e) => redirect_target(event@) is None && e@ == ErrorView::NoRedirectLocation,
        },
{
    match event {
        HttpEvent::Response { status, location: Location::Target(t), body } => {
            if 300 <= *status && *status < 400 {
                Ok(t.clone())
            } else {
                Err(ResolutionError::NoRedirectLocation)
            }
        },
        _ => Err(ResolutionError::NoRedirectLocation),
    }
}


/// Where a resolution stands while a request is out: the platform, the
/// stage, and what later stages need.
#[derive(Debug, Clone, PartialEq, Eq)]
pub enum Pending {
    /// DouYin: the short link was asked where it leads.
    DouyinRedirect,
    /// DouYin: the share page of `video_id` was asked for.
    DouyinPage { video_id: String },
    /// DouYin: the detail API was asked for a note.
    DouyinSlides,
    /// DouYin: one media address of `record` was asked where it leads:
    /// the primary one for `next` 0, else the quality before position `next`.
    DouyinCdn { record: VideoParseInfo, next: usize },
    /// Xiaohongshu: the page of the note was asked for.
    XhsPage,
    /// PiPiXia: the share link was asked where it leads.
    PipixiaRedirect,
    /// PiPiXia: the item API was asked.
    PipixiaItem,
    /// Weibo: the video component API was asked.
    WeiboVideo,
    /// Weibo: the mobile status API was asked about the post at `original_url`.
    WeiboStatus { original_url: String },
    /// Weibo: the video component API was asked for the stream of `record`.
    WeiboPostVideo { record: VideoParseInfo },
    /// Weibo: the desktop page of the post was asked for.
    WeiboDesktop,
    /// Kuaishou: `url` was asked where it leads, after `hops` redirections.
    KuaishouRedirect { url: String, hops: u8 },
    /// Kuaishou: the page of the item was asked for.
    KuaishouPage,
    /// Bilibili: the short link was asked where it leads.
    BilibiliShort,
    /// Bilibili: the metadata of `bvid` was asked for.
    BilibiliView { bvid: String },
    /// Bilibili: the stream of `record` was asked for.
    BilibiliPlay { record: VideoParseInfo },
    /// XiGua: `url` was asked where it leads.
    XiguaRedirect { url: String },
    /// XiGua: the metadata of the item was asked for.
    XiguaInfo,
    /// XiGua: the streams of `record` were asked for.
    XiguaVod { record: VideoParseInfo },
}

pub enum PendingView {
    DouyinRedirect,
    DouyinPage { video_id: Seq<char> },
    DouyinSlides,
    DouyinCdn { record: VideoParseInfoView, next: usize },
    XhsPage,
    PipixiaRedirect,
    PipixiaItem,
    WeiboVideo,
    WeiboStatus { original_url: Seq<char> },
    WeiboPostVideo { record: VideoParseInfoView },
    WeiboDesktop,
    KuaishouRedirect { url: Seq<char>, hops: u8 },
    KuaishouPage,
    BilibiliShort,
    BilibiliView { bvid: Seq<char> },
    BilibiliPlay { record: VideoParseInfoView },
    XiguaRedirect { url: Seq<char> },
    XiguaInfo,
    XiguaVod { record: VideoParseInfoView },
}

impl View for Pending {
    type V = PendingView;

    open spec fn view(&self) -> PendingView {
        match self {
            Pending::DouyinRedirect => PendingView::DouyinRedirect,
            Pending::DouyinPage { video_id } => PendingView::DouyinPage { video_id: video_id@ },
            Pending::DouyinSlides => PendingView::DouyinSlides,
            Pending::DouyinCdn { record, next } => PendingView::DouyinCdn {
                record: record@,
                next: *next,
            },
            Pending::XhsPage => PendingView::XhsPage,
            Pending::PipixiaRedirect => PendingView::PipixiaRedirect,
            Pending::PipixiaItem => PendingView::PipixiaItem,
            Pending::WeiboVideo => PendingView::WeiboVideo,
            Pending::WeiboStatus { original_url } => PendingView::WeiboStatus {
                original_url: original_url@,
            },
            Pending::WeiboPostVideo { record } => PendingView::WeiboPostVideo { record: record@ },
            Pending::WeiboDesktop => PendingView::WeiboDesktop,
            Pending::KuaishouRedirect { url, hops } => PendingView::KuaishouRedirect {
                url: url@,
                hops: *hops,
            },
            Pending::KuaishouPage => PendingView::KuaishouPage,
            Pending::BilibiliShort => PendingView::BilibiliShort,
            Pending::BilibiliView { bvid } => PendingView::BilibiliView { bvid: bvid@ },
            Pending::BilibiliPlay { record } => PendingView::BilibiliPlay { record: record@ },
            Pending::XiguaRedirect { url } => PendingView::XiguaRedirect { url: url@ },
            Pending::XiguaInfo => PendingView::XiguaInfo,
            Pending::XiguaVod { record } => PendingView::XiguaVod { record: record@ },
        }
    }
}

/// What a resolution does next.
#[derive(Debug, Clone, PartialEq, Eq)]
pub enum Step {
    /// Perform the request and come back with what came of it.
    Fetch(HttpRequest, Pending),
    /// The resolution is done.
    Done(VideoParseInfo),
    /// The resolution failed.
    Failed(ResolutionError),
}

pub enum StepView {
    Fetch(HttpRequestView, PendingView),
    Done(VideoParseInfoView),
    Failed(ErrorView),
}

impl View for Step {
    type V = StepView;

    open spec fn view(&self) -> StepView {
        match self {
            Step::Fetch(request, pending) => StepView::Fetch(request@, pending@),
            Step::Done(record) => StepView::Done(record@),
            Step::Failed(e) => StepView::Failed(e@),
        }
    }
}

impl StepView {
    /// Whether the step hands out no record that is both gallery and video.
    pub open spec fn is_exclusive(self) -> bool {
        self matches StepView::Done(record) ==> record.is_exclusive()
    }
}

/// A `GET` of `url` with the given `User-Agent` that follows no redirection.
pub open spec fn probe(url: Seq<char>, agent: Seq<char>) -> HttpRequestView {
    HttpRequestView::get(url).header("User-Agent"@, agent).no_redirects()
}

/// A `GET` of `url` with the given `User-Agent` that follows no redirection.
pub fn probe_request(url: String, agent: &str) -> (r: HttpRequest)
    ensures
        r@ == probe(url@, agent@),
{
    HttpRequest::get(url).header("User-Agent", agent).no_redirects()
}

} // verus!
