//! Collects a user's recent posts from a paged feed, names a screenshot file
//! for each of them, and drives the capture of those screenshots.
//!
//! The decisions are verified here; fetching pages, driving a browser and
//! writing files are left to the caller, which hands back plain values.

pub mod capture;
pub mod error;
pub mod feed;
pub mod naming;
pub mod pagination;
pub mod window;

pub use capture::{CaptureAction, CaptureEvent, CaptureJob, CaptureRun, CaptureStage, CaptureStatus, SETTLE_SECS};
pub use error::Error;
pub use feed::{FeedTime, MBlog, MBlogRaw, RootCard, RootCardRaw, RootData, RootResponse, FEED_TIME_LAYOUT};
pub use naming::{file_name, sequence};
pub use pagination::{Collector, PageOutcome, PageRun, PAGE_DELAY_SECS};
pub use window::{classify, TimeWindow, Verdict, SECONDS_PER_DAY};
