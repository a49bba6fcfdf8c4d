use crate::error::Error;
use crate::feed::{normalized_card, RootCard, RootCardRaw};
use crate::window::{classify, TimeWindow};
use vstd::prelude::*;

verus! {

/// Seconds to wait between two page requests.
pub const PAGE_DELAY_SECS: u64 = 1;

/// Where the processing of a page ends.
pub enum PageRun {
    /// Every post of the page was processed and the collection goes on.
    Open(Seq<RootCard>),
    /// A post ended the collection; the cards collected so far.
    Finished(Seq<RootCard>),
    /// A post could not be normalized; the cards collected before it.
    Failed(Seq<RootCard>, Error),
}

/// Processes the posts of a page in order, from the cards `acc` collected
/// before it: each post is normalized, kept when the window keeps it, and the
/// collection ends right after a post past the cutoff or once `limit` cards
/// are held.
pub open spec fn run_page(w: TimeWindow, limit: nat, acc: Seq<RootCard>, raws: Seq<RootCardRaw>) -> PageRun
    decreases raws.len(),
{
    if raws.len() == 0 {
        PageRun::Open(acc)
    } else {
        match normalized_card(raws[0]) {
            Err(e) => PageRun::Failed(acc, e),
            Ok(card) => {
                let v = w.verdict(card.mblog);
                let next = if v.keep { acc.push(card) } else { acc };
                if v.cutoff || next.len() >= limit {
                    PageRun::Finished(next)
                } else {
                    run_page(w, limit, next, raws.subrange(1, raws.len() as int))
                }
            },
        }
    }
}

/// What the caller does after a page.
#[derive(Debug, Clone, Copy, PartialEq, Eq)]
pub enum PageOutcome {
    /// Fetch the page with this index and hand it over.
    NeedPage(u64),
    /// The collection is over.
    Done,
}

/// The state of a collection across pages. Pages are numbered from 1.
pub struct Collector {
    window: TimeWindow,
    limit: usize,
    cards: Vec<RootCard>,
    next_page: u64,
    done: bool,
}

impl Collector {
    pub closed spec fn spec_window(&self) -> TimeWindow {
        self.window
    }

    pub closed spec fn spec_limit(&self) -> nat {
        self.limit as nat
    }

    pub closed spec fn spec_cards(&self) -> Seq<RootCard> {
        self.cards@
    }

    pub closed spec fn spec_next_page(&self) -> u64 {
        self.next_page
    }

    pub closed spec fn spec_done(&self) -> bool {
        self.done
    }

    /// The collection never holds more cards than its limit, and holds fewer
    /// while it goes on.
    pub open spec fn wf(&self) -> bool {
        &&& self.spec_limit() >= 1
        &&& self.spec_next_page() >= 1
        &&& self.spec_cards().len() <= self.spec_limit()
        &&& !self.spec_done() ==> self.spec_cards().len() < self.spec_limit()
    }

    /// A collection that has nothing yet and asks for page 1.
    pub fn new(window: TimeWindow, limit: usize) -> (r: Collector)
        requires
            limit >= 1,
        ensures
            r.wf(),
            r.spec_window() == window,
            r.spec_limit() == limit,
            r.spec_cards() == Seq::<RootCard>::empty(),
            r.spec_next_page() == 1,
            !r.spec_done(),
    {
        Collector { window, limit, cards: Vec::new(), next_page: 1, done: false }
    }

    /// The index of the page to fetch next, while the collection goes on.
    pub fn next_page(&self) -> (r: PageOutcome)
        ensures
            r == (if self.spec_done() {
                PageOutcome::Done
            } else {
                PageOutcome::NeedPage(self.spec_next_page())
            }),
    {
        if self.done {
            PageOutcome::Done
        } else {
            PageOutcome::NeedPage(self.next_page)
        }
    }

    pub fn is_done(&self) -> (r: bool)
        ensures
            r == self.spec_done(),
    {
        self.done
    }

    /// The cards collected so far, in the order the feed gave them.
    pub fn cards(&self) -> (r: &Vec<RootCard>)
        ensures
            r@ == self.spec_cards(),
    {
        &self.cards
    }

    /// Gives up the collection and returns its cards.
    pub fn into_cards(self) -> (r: Vec<RootCard>)
        ensures
            r@ == self.spec_cards(),
    {
        self.cards
    }

    /// Processes the page the collection asked for. An empty page and a post
    /// that cannot be normalized end the run with an error; otherwise the
    /// collection either ends (`Done`) or asks for the following page.
    pub fn accept_page(&mut self, page: Vec<RootCardRaw>) -> (r: Result<PageOutcome, Error>)
        requires
            old(self).wf(),
            !old(self).spec_done(),
            old(self).spec_next_page() < u64::MAX,
        ensures
            final(self).wf(),
            final(self).spec_window() == old(self).spec_window(),
            final(self).spec_limit() == old(self).spec_limit(),
            page@.len() == 0 ==> {
                &&& r == Err::<PageOutcome, Error>(Error::EmptyPage(old(self).spec_next_page()))
                &&& final(self).spec_cards() == old(self).spec_cards()
                &&& final(self).spec_done()
            },
            page@.len() > 0 ==> match run_page(
                old(self).spec_window(),
                old(self).spec_limit(),
                old(self).spec_cards(),
                page@,
            ) {
                PageRun::Open(cards) => {
                    &&& r == Ok::<PageOutcome, Error>(PageOutcome::NeedPage(final(self).spec_next_page()))
                    &&& final(self).spec_cards() == cards
                    &&& final(self).spec_next_page() == old(self).spec_next_page() + 1
                    &&& !final(self).spec_done()
                },
                PageRun::Finished(cards) => {
                    &&& r == Ok::<PageOutcome, Error>(PageOutcome::Done)
                    &&& final(self).spec_cards() == cards
                    &&& final(self).spec_done()
                },
                PageRun::Failed(cards, e) => {
                    &&& r == Err::<PageOutcome, Error>(e)
                    &&& final(self).spec_cards() == cards
                    &&& final(self).spec_done()
                },
            },
    {
        if page.len() == 0 {
            self.done = true;
            return Err(Error::EmptyPage(self.next_page));
        }
        let ghost w = self.window;
        let ghost lim = self.limit as nat;
        let ghost whole = run_page(w, lim, self.cards@, page@);
        let ghost np = self.next_page;
        let mut cards: Vec<RootCard> = Vec::new();
        std::mem::swap(&mut cards, &mut self.cards);
        assert(self.window == old(self).window);
        assert(self.limit == old(self).limit);
        let mut rest = page;
        while rest.len() > 0
            invariant
                w == self.window,
                w == old(self).window,
                lim == self.limit as nat,
                self.limit == old(self).limit,
                lim >= 1,
                np == self.next_page,
                np == old(self).next_page,
                !self.done,
                page@.len() > 0,
                whole == run_page(old(self).spec_window(), old(self).spec_limit(), old(self).spec_cards(), page@),
                1 <= np < u64::MAX,
                cards@.len() < lim,
                run_page(w, lim, cards@, rest@) == whole,
            decreases rest@.len(),
        {
            let ghost before = rest@;
            let raw = rest.remove(0);
            assert(rest@ =~= before.subrange(1, before.len() as int));
            assert(raw == before[0]);
            match RootCard::try_from(raw) {
                Err(e) => {
                    assert(run_page(w, lim, cards@, before) == PageRun::Failed(cards@, e));
                    self.cards = cards;
                    self.done = true;
                    return Err(e);
                },
                Ok(card) => {
                    let v = classify(&card.mblog, &self.window);
                    if v.keep {
                        cards.push(card);
                    }
                    if v.cutoff || cards.len() >= self.limit {
                        self.cards = cards;
                        self.done = true;
                        return Ok(PageOutcome::Done);
                    }
                },
            }
        }
        assert(run_page(w, lim, cards@, rest@) == PageRun::Open(cards@));
        self.cards = cards;
        self.next_page = self.next_page + 1;
        Ok(PageOutcome::NeedPage(self.next_page))
    }
}

/// Whatever a page holds, the collection it leaves behind stays within the limit.
pub proof fn lemma_run_page_within_limit(w: TimeWindow, limit: nat, acc: Seq<RootCard>, raws: Seq<RootCardRaw>)
    requires
        acc.len() < limit,
    ensures
        match run_page(w, limit, acc, raws) {
            PageRun::Open(cards) => cards.len() < limit,
            PageRun::Finished(cards) => cards.len() <= limit,
            PageRun::Failed(cards, _) => cards.len() < limit,
        },
    decreases raws.len(),
{
    if raws.len() > 0 {
        if let Ok(card) = normalized_card(raws[0]) {
            let v = w.verdict(card.mblog);
            let next = if v.keep { acc.push(card) } else { acc };
            if !(v.cutoff || next.len() >= limit) {
                lemma_run_page_within_limit(w, limit, next, raws.subrange(1, raws.len() as int));
            }
        }
    }
}

/// A post at or before the cutoff ends the collection right after it: when
/// every post up to index `k` normalizes and post `k` is past the cutoff, the
/// page finishes, and the posts after `k` have no effect.
pub proof fn lemma_cutoff_stops(w: TimeWindow, limit: nat, acc: Seq<RootCard>, raws: Seq<RootCardRaw>, k: int)
    requires
        0 <= k < raws.len(),
        forall|j: int| 0 <= j <= k ==> normalized_card(#[trigger] raws[j]) is Ok,
        w.past_cutoff(normalized_card(raws[k])->Ok_0.mblog.created_at.timestamp),
    ensures
        run_page(w, limit, acc, raws) is Finished,
        run_page(w, limit, acc, raws) == run_page(w, limit, acc, raws.subrange(0, k + 1)),
    decreases k,
{
    let card = normalized_card(raws[0])->Ok_0;
    let v = w.verdict(card.mblog);
    let next = if v.keep { acc.push(card) } else { acc };
    let short = raws.subrange(0, k + 1);
    assert(short[0] == raws[0]);
    if k > 0 && !(v.cutoff || next.len() >= limit) {
        let tail = raws.subrange(1, raws.len() as int);
        assert forall|j: int| 0 <= j <= k - 1 implies normalized_card(#[trigger] tail[j]) is Ok by {
            assert(tail[j] == raws[j + 1]);
        }
        assert(tail[k - 1] == raws[k]);
        lemma_cutoff_stops(w, limit, next, tail, k - 1);
        assert(short.subrange(1, short.len() as int) =~= tail.subrange(0, k));
    }
}

} // verus!
