//! The typed failures of a resolution.

use vstd::prelude::*;

verus! {

/// Why a resolution failed.
#[derive(Debug, Clone, PartialEq, Eq)]
pub enum ResolutionError {
    /// The host of the link matches no platform.
    UnsupportedPlatform,
    /// No usable link or content identifier could be taken from the input.
    InvalidShareInput,
    /// The network request itself failed.
    UpstreamUnreachable,
    /// An expected JSON key or HTML marker is absent from the answer.
    UpstreamFormatChanged,
    /// The platform reports that the content is missing.
    ContentNotFound,
    /// The signature was asked for with an empty client identity.
    SignatureDerivationFailed,
    /// The answer is no redirection, or it names no target.
    NoRedirectLocation,
    /// The hop limit was reached while the server was still redirecting.
    TooManyRedirects,
    /// The embedded state was found but is no JSON; holds the start of the
    /// text that failed to parse.
    MalformedEmbeddedState(String),
}

/// A `ResolutionError` with its text as a sequence of characters.
pub enum ErrorView {
    UnsupportedPlatform,
    InvalidShareInput,
    UpstreamUnreachable,
    UpstreamFormatChanged,
    ContentNotFound,
    SignatureDerivationFailed,
    NoRedirectLocation,
    TooManyRedirects,
    MalformedEmbeddedState(Seq<char>),
}

impl View for ResolutionError {
    type V = ErrorView;

    open spec fn view(&self) -> ErrorView {
        match self {
            ResolutionError::UnsupportedPlatform => ErrorView::UnsupportedPlatform,
            ResolutionError::InvalidShareInput => ErrorView::InvalidShareInput,
            ResolutionError::UpstreamUnreachable => ErrorView::UpstreamUnreachable,
            ResolutionError::UpstreamFormatChanged => ErrorView::UpstreamFormatChanged,
            ResolutionError::ContentNotFound => ErrorView::ContentNotFound,
            ResolutionError::SignatureDerivationFailed => ErrorView::SignatureDerivationFailed,
            ResolutionError::NoRedirectLocation => ErrorView::NoRedirectLocation,
            ResolutionError::TooManyRedirects => ErrorView::TooManyRedirects,
            ResolutionError::MalformedEmbeddedState(snippet) => ErrorView::MalformedEmbeddedState(
                snippet@,
            ),
        }
    }
}


impl ErrorView {
    /// The text that describes the failure to a user.
    pub open spec fn message(self) -> Seq<char> {
        match self {
            ErrorView::UnsupportedPlatform => "Unsupported URL"@,
            ErrorView::InvalidShareInput => "No usable link in the share text"@,
            ErrorView::UpstreamUnreachable => "The platform could not be reached"@,
            ErrorView::UpstreamFormatChanged => "The platform's answer has an unknown shape"@,
            ErrorView::ContentNotFound => "The platform reports that the content is missing"@,
            ErrorView::SignatureDerivationFailed => "No signature without a client identity"@,
            ErrorView::NoRedirectLocation => "No redirect location found"@,
            ErrorView::TooManyRedirects => "Too many redirects"@,
            ErrorView::MalformedEmbeddedState(snippet) => "JSON decode error, content snippet: "@
                + snippet,
        }
    }
}

impl ResolutionError {
    /// The text that describes the failure to a user.
    pub fn message(&self) -> (m: String)
        ensures
            m@ == self@.message(),
    {
        match self {
            ResolutionError::UnsupportedPlatform => "Unsupported URL".to_owned(),
            ResolutionError::InvalidShareInput => "No usable link in the share text".to_owned(),
            ResolutionError::UpstreamUnreachable => "The platform could not be reached".to_owned(),
            ResolutionError::UpstreamFormatChanged => "The platform's answer has an unknown shape".to_owned(),
            ResolutionError::ContentNotFound => "The platform reports that the content is missing".to_owned(),
            ResolutionError::SignatureDerivationFailed => "No signature without a client identity".to_owned(),
            ResolutionError::NoRedirectLocation => "No redirect location found".to_owned(),
            ResolutionError::TooManyRedirects => "Too many redirects".to_owned(),
            ResolutionError::MalformedEmbeddedState(snippet) => crate::text::str_concat(
                "JSON decode error, content snippet: ",
                snippet.as_str(),
            ),
        }
    }
}

} // verus!
