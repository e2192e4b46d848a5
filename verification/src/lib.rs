//! Extraction of direct media URLs and titles from a video page's markup.
//!
//! A [`FbVideo`] owns a page URL and a requested [`Quality`] tier. A driver
//! fetches the page body once, stores it with [`FbVideo::store_content`], and
//! the extraction queries then run against that cached body.

pub mod laws;
pub mod pattern;
pub mod video;

pub use pattern::{grep_video_title, grep_video_url};
pub use video::{Error, FbVideo, Quality};
