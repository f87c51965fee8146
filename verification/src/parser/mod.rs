//! The platform adapters and what they share.

pub mod bilibili;
pub mod douyin;
pub mod kuaishou;
pub mod pipixia;
pub mod weibo;
pub mod xhs;
pub mod xigua;
pub mod utils;
pub mod xb;
