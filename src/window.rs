use crate::feed::MBlog;
use vstd::prelude::*;

verus! {

pub const SECONDS_PER_DAY: i64 = 86400;

/// The two boundaries of a run, as instants in seconds since the Unix epoch.
/// A post at or before `recent_boundary` has settled; one at or before
/// `cutoff_boundary` is older than anything the run wants.
#[derive(Debug, Clone, Copy, PartialEq, Eq)]
pub struct TimeWindow {
    pub recent_boundary: i64,
    pub cutoff_boundary: i64,
}

/// What the selector says of one post; both signals are reported.
#[derive(Debug, Clone, Copy, PartialEq, Eq)]
pub struct Verdict {
    /// The post joins the collection.
    pub keep: bool,
    /// The post is old enough to end the collection.
    pub cutoff: bool,
}

impl TimeWindow {
    pub open spec fn wf(self) -> bool {
        self.cutoff_boundary <= self.recent_boundary
    }

    /// Whether both spans, and both boundaries, fit in an `i64` of seconds.
    pub open spec fn fits(now: i64, recent_days: i64, accent_days: i64) -> bool {
        &&& SECONDS_PER_DAY * recent_days <= i64::MAX
        &&& SECONDS_PER_DAY * accent_days <= i64::MAX
        &&& now - SECONDS_PER_DAY * (recent_days + accent_days) >= i64::MIN
    }

    /// The window that ends `recent_days` days before `now` and reaches back
    /// `accent_days` days further; `None` when the cutoff would not fit.
    pub fn new(now: i64, recent_days: i64, accent_days: i64) -> (r: Option<TimeWindow>)
        requires
            recent_days >= 0,
            accent_days >= 0,
        ensures
            r is Some <==> Self::fits(now, recent_days, accent_days),
            r matches Some(w) ==> {
                &&& w.recent_boundary == now - SECONDS_PER_DAY * recent_days
                &&& w.cutoff_boundary == w.recent_boundary - SECONDS_PER_DAY * accent_days
                &&& w.wf()
            },
    {
        let recent_span = match recent_days.checked_mul(SECONDS_PER_DAY) {
            Some(s) => s,
            None => return None,
        };
        let recent_boundary = match now.checked_sub(recent_span) {
            Some(b) => b,
            None => {
                assert(SECONDS_PER_DAY * accent_days >= 0) by (nonlinear_arith)
                    requires
                        accent_days >= 0,
                        SECONDS_PER_DAY == 86400,
                ;
                return None;
            },
        };
        let accent_span = match accent_days.checked_mul(SECONDS_PER_DAY) {
            Some(s) => s,
            None => return None,
        };
        assert(SECONDS_PER_DAY * (recent_days + accent_days) == recent_span + accent_span)
            by (nonlinear_arith)
            requires
                recent_span == recent_days * SECONDS_PER_DAY,
                accent_span == accent_days * SECONDS_PER_DAY,
        ;
        assert(accent_span >= 0) by (nonlinear_arith)
            requires
                accent_span == accent_days * SECONDS_PER_DAY,
                accent_days >= 0,
                SECONDS_PER_DAY == 86400,
        ;
        match recent_boundary.checked_sub(accent_span) {
            Some(cutoff_boundary) => Some(TimeWindow { recent_boundary, cutoff_boundary }),
            None => None,
        }
    }

    /// Whether a post at instant `t` is old enough to be counted.
    pub open spec fn settled(self, t: i64) -> bool {
        t <= self.recent_boundary
    }

    /// Whether a post at instant `t` ends the collection.
    pub open spec fn past_cutoff(self, t: i64) -> bool {
        t <= self.cutoff_boundary
    }

    /// The verdict on a post: it is included when it has settled and is not a
    /// share; it ends the collection when it is at or before the cutoff.
    pub open spec fn verdict(self, post: MBlog) -> Verdict {
        Verdict {
            keep: self.settled(post.created_at.timestamp) && !post.is_retweet,
            cutoff: self.past_cutoff(post.created_at.timestamp),
        }
    }
}

/// Decides whether a post is included, and whether it ends the collection.
/// Both comparisons are inclusive.
pub fn classify(post: &MBlog, window: &TimeWindow) -> (r: Verdict)
    ensures
        r == window.verdict(*post),
        r.keep <==> (post.created_at.timestamp <= window.recent_boundary && !post.is_retweet),
        r.cutoff <==> post.created_at.timestamp <= window.cutoff_boundary,
{
    let t = post.created_at.timestamp;
    Verdict { keep: t <= window.recent_boundary && !post.is_retweet, cutoff: t <= window.cutoff_boundary }
}

/// A share is never included, however recent it is.
pub proof fn lemma_share_never_included(window: TimeWindow, post: MBlog)
    requires
        post.is_retweet,
    ensures
        !window.verdict(post).keep,
{
}

/// The comparisons are inclusive: a post exactly at the recent boundary that is
/// not a share is included, and one exactly at the cutoff ends the collection.
pub proof fn lemma_boundaries_inclusive(window: TimeWindow, post: MBlog)
    ensures
        post.created_at.timestamp == window.recent_boundary && !post.is_retweet
            ==> window.verdict(post).keep,
        post.created_at.timestamp == window.cutoff_boundary ==> window.verdict(post).cutoff,
{
}

} // verus!
