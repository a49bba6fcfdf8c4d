use crate::error::Error;
use chrono::{Datelike, Offset};
use vstd::prelude::*;

verus! {

/// The layout of a creation time in the feed, as chrono reads it:
/// weekday, month name, day, time, offset, year (`Tue Jan 02 10:00:00 +0800 2024`).
pub const FEED_TIME_LAYOUT: &'static str = "%a %b %d %T %z %Y";

#[verifier::external_type_specification]
#[verifier::external_body]
pub struct ExParseError(chrono::ParseError);

/// A creation time: an instant and the calendar fields under its own offset.
#[derive(Debug, Clone, Copy, PartialEq, Eq)]
pub struct FeedTime {
    /// Seconds since the Unix epoch.
    pub timestamp: i64,
    /// Seconds to add to UTC to get the local time of the post.
    pub offset_seconds: i32,
    pub year: i32,
    /// 1 to 12.
    pub month: u32,
    /// 1 to 31.
    pub day: u32,
}

impl FeedTime {
    pub open spec fn wf(self) -> bool {
        &&& 1 <= self.month <= 12
        &&& 1 <= self.day <= 31
    }
}

/// What chrono reads from a text under a layout, as the calendar fields kept here.
pub uninterp spec fn parsed_time(text: Seq<char>, layout: Seq<char>) -> Option<FeedTime>;

/// Relies on chrono's `DateTime::parse_from_str`, which reads a time with an
/// explicit offset under a strftime layout, and on the `timestamp`,
/// `local_minus_utc`, `year`, `month` (1 to 12) and `day` (1 to 31) that chrono
/// reports for the value it read.
#[verifier::external_body]
fn parse_fixed_offset(text: &str, layout: &str) -> (r: Result<FeedTime, chrono::ParseError>)
    ensures
        match r {
            Ok(t) => parsed_time(text@, layout@) == Some(t) && t.wf(),
            Err(_) => parsed_time(text@, layout@) is None,
        },
{
    chrono::DateTime::parse_from_str(text, layout).map(|d| FeedTime {
        timestamp: d.timestamp(),
        offset_seconds: d.offset().fix().local_minus_utc(),
        year: d.year(),
        month: d.month(),
        day: d.day(),
    })
}

/// The envelope of one page of the feed.
#[derive(Debug, Clone)]
pub struct RootResponse {
    pub data: RootData,
}

#[derive(Debug, Clone)]
pub struct RootData {
    pub cards: Vec<RootCardRaw>,
}

/// One entry of a page as the feed sends it.
#[derive(Debug, Clone)]
pub struct RootCardRaw {
    /// The link that renders the post.
    pub scheme: String,
    pub mblog: MBlogRaw,
}

/// A post as the feed sends it.
#[derive(Debug, Clone)]
pub struct MBlogRaw {
    pub text: String,
    pub id: String,
    pub reposts_count: u32,
    pub comments_count: u32,
    pub reprint_cmt_count: u32,
    pub attitudes_count: u32,
    /// The creation time, in `FEED_TIME_LAYOUT`.
    pub created_at: String,
    /// Whether the feed marked the post as a share of another one.
    pub is_retweet: bool,
}

/// A post whose creation time has been read.
#[derive(Debug, Clone)]
pub struct MBlog {
    pub text: String,
    pub id: String,
    pub reposts_count: u32,
    pub comments_count: u32,
    pub reprint_cmt_count: u32,
    pub attitudes_count: u32,
    pub created_at: FeedTime,
    pub is_retweet: bool,
}

/// A post together with the link that renders it.
#[derive(Debug, Clone)]
pub struct RootCard {
    pub scheme: String,
    pub mblog: MBlog,
}

/// The post that a raw record becomes, or the error for its creation time.
pub open spec fn normalized_blog(r: MBlogRaw) -> Result<MBlog, Error> {
    match parsed_time(r.created_at@, FEED_TIME_LAYOUT@) {
        Some(t) => Ok(
            MBlog {
                text: r.text,
                id: r.id,
                reposts_count: r.reposts_count,
                comments_count: r.comments_count,
                reprint_cmt_count: r.reprint_cmt_count,
                attitudes_count: r.attitudes_count,
                created_at: t,
                is_retweet: r.is_retweet,
            },
        ),
        None => Err(Error::TimestampParse(r.created_at)),
    }
}

/// The card that a raw entry becomes, or the error for its post.
pub open spec fn normalized_card(r: RootCardRaw) -> Result<RootCard, Error> {
    match normalized_blog(r.mblog) {
        Ok(m) => Ok(RootCard { scheme: r.scheme, mblog: m }),
        Err(e) => Err(e),
    }
}

impl MBlog {
    /// Every normalized post carries a well-formed creation time.
    pub open spec fn wf(self) -> bool {
        self.created_at.wf()
    }

    /// Reads the creation time of a raw post; the other fields pass through.
    pub fn try_from(r: MBlogRaw) -> (res: Result<MBlog, Error>)
        ensures
            res == normalized_blog(r),
            res matches Ok(m) ==> m.wf(),
    {
        match parse_fixed_offset(r.created_at.as_str(), FEED_TIME_LAYOUT) {
            Ok(t) => Ok(
                MBlog {
                    text: r.text,
                    id: r.id,
                    reposts_count: r.reposts_count,
                    comments_count: r.comments_count,
                    reprint_cmt_count: r.reprint_cmt_count,
                    attitudes_count: r.attitudes_count,
                    created_at: t,
                    is_retweet: r.is_retweet,
                },
            ),
            Err(_) => Err(Error::TimestampParse(r.created_at)),
        }
    }
}

impl RootCard {
    pub open spec fn wf(self) -> bool {
        self.mblog.wf()
    }

    /// Normalizes the post of a raw entry and keeps its link.
    pub fn try_from(r: RootCardRaw) -> (res: Result<RootCard, Error>)
        ensures
            res == normalized_card(r),
            res matches Ok(c) ==> c.wf(),
    {
        match MBlog::try_from(r.mblog) {
            Ok(m) => Ok(RootCard { scheme: r.scheme, mblog: m }),
            Err(e) => Err(e),
        }
    }
}

} // verus!
