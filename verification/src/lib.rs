//! Resolution of share links from short-video and social-post platforms into
//! a platform-neutral media description.
//!
//! A share text is resolved in steps. [`resolver::start`] looks for the link
//! in the text, finds the platform by the host of the link and answers with
//! the first [`protocol::Step`]: a request to perform, the finished record,
//! or a failure. The caller performs the request and hands what came of it
//! to [`resolver::resume`], which answers with the next step, until the
//! record or the failure is there. The library itself performs no request;
//! it decides what to ask, and what an answer means.
//!
//! The modules:
//!
//! - [`text`]: searching, replacing, splitting and trimming of character
//!   sequences;
//! - [`json`], [`link`], [`html`]: documents, addresses and pages as the
//!   adapters read them;
//! - [`embedded`]: the JSON document that a page assigns to a variable;
//! - [`protocol`]: requests, answers and the stages of a resolution;
//! - [`models`], [`error`]: the record of an item and the failures;
//! - [`parser`]: the adapters of the platforms, the request signature and
//!   what the adapters share;
//! - [`resolver`]: the platform table and the two entry points;
//! - [`forms`]: the rules of the application's forms.

pub mod embedded;
pub mod error;
pub mod forms;
pub mod html;
pub mod json;
pub mod link;
pub mod models;
pub mod parser;
pub mod protocol;
pub mod resolver;
pub mod text;
