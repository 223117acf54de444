use vstd::prelude::*;

use crate::json::opt_str_view;
use crate::text::chars_of;

verus! {

/// What paging through the posts of a profile does next.
#[derive(Debug, PartialEq)]
pub enum PageAction {
    /// Fetch the page that starts at this cursor (at the first post when
    /// there is none).
    Fetch(Option<String>),
    /// Fetch no more pages.
    Stop,
}

/// How fetching a page went.
#[derive(Debug, PartialEq)]
pub enum PageEvent {
    /// The page came, with the cursor of the page after it, if any.
    Fetched(Option<String>),
    /// The page could not be fetched.
    Failed,
}

/// Paging through the posts of a profile: at most `iterations` pages are
/// fetched, each from the cursor that the page before it gave, until a page
/// gives no cursor or a fetch fails.
#[derive(Debug)]
pub struct PostPager {
    /// The cursor of the next page to fetch.
    pub cursor: Option<String>,
    /// How many pages were fetched or tried so far.
    pub fetched: u64,
    /// How many pages may be fetched in all.
    pub iterations: u64,
    /// Whether paging has come to its end.
    pub stopped: bool,
}

impl PostPager {
    /// No more pages were tried than allowed.
    pub open spec fn wf(&self) -> bool {
        self.fetched <= self.iterations
    }

    /// Another page is to be fetched.
    pub open spec fn can_fetch(&self) -> bool {
        !self.stopped && self.fetched < self.iterations
    }

    /// The pager after a page was fetched or failed.
    pub open spec fn recorded(self, event: PageEvent) -> PostPager {
        match event {
            PageEvent::Fetched(next) => PostPager {
                cursor: next,
                fetched: (self.fetched + 1) as u64,
                iterations: self.iterations,
                stopped: next is None,
            },
            PageEvent::Failed => PostPager {
                cursor: self.cursor,
                fetched: (self.fetched + 1) as u64,
                iterations: self.iterations,
                stopped: true,
            },
        }
    }

    /// Paging from `cursor` (from the first post when there is none), for at
    /// most `iterations` pages.
    pub fn new(cursor: Option<String>, iterations: u64) -> (r: PostPager)
        ensures
            r.wf(),
            r.cursor == cursor,
            r.fetched == 0,
            r.iterations == iterations,
            !r.stopped,
    {
        PostPager { cursor, fetched: 0, iterations, stopped: false }
    }

    /// What to do next.
    pub fn next_action(&self) -> (r: PageAction)
        ensures
            match r {
                PageAction::Fetch(c) => self.can_fetch() && opt_str_view(c) == opt_str_view(
                    self.cursor,
                ),
                PageAction::Stop => !self.can_fetch(),
            },
    {
        if self.stopped || self.fetched == self.iterations || self.fetched > self.iterations {
            PageAction::Stop
        } else {
            let c = match &self.cursor {
                Some(c) => Some(c.clone()),
                None => None,
            };
            PageAction::Fetch(c)
        }
    }

    /// Takes note of how fetching the page went.
    pub fn record(&mut self, event: PageEvent)
        requires
            old(self).wf(),
            old(self).can_fetch(),
        ensures
            final(self).wf(),
            *final(self) == old(self).recorded(event),
    {
        self.fetched = self.fetched + 1;
        match event {
            PageEvent::Fetched(next) => {
                self.stopped = next.is_none();
                self.cursor = next;
            },
            PageEvent::Failed => {
                self.stopped = true;
            },
        }
    }
}

/// The pager after some events, each taken note of only while another page
/// was to be fetched.
pub open spec fn run(p: PostPager, events: Seq<PageEvent>) -> PostPager
    decreases events.len(),
{
    if events.len() == 0 || !p.can_fetch() {
        p
    } else {
        run(p.recorded(events[0]), events.drop_first())
    }
}

/// However the fetches go, paging never tries more pages than allowed.
pub proof fn lemma_pages_bounded(p: PostPager, events: Seq<PageEvent>)
    requires
        p.wf(),
    ensures
        run(p, events).wf(),
        run(p, events).iterations == p.iterations,
        run(p, events).fetched <= p.fetched + events.len(),
    decreases events.len(),
{
    if events.len() > 0 && p.can_fetch() {
        lemma_pages_bounded(p.recorded(events[0]), events.drop_first());
    }
}

/// Once paging has stopped, nothing moves it on.
pub proof fn lemma_stopped_is_final(p: PostPager, events: Seq<PageEvent>)
    requires
        !p.can_fetch(),
    ensures
        run(p, events) == p,
{
}

/// A page that gives no cursor, or a failed fetch, ends paging; a page that
/// gives a cursor leads to fetching from that cursor while pages are left.
pub proof fn lemma_cursor_chain(p: PostPager, next: Option<String>)
    requires
        p.wf(),
        p.can_fetch(),
    ensures
        !p.recorded(PageEvent::Failed).can_fetch(),
        next is None ==> !p.recorded(PageEvent::Fetched(next)).can_fetch(),
        next is Some && p.fetched + 1 < p.iterations ==> p.recorded(PageEvent::Fetched(next)).can_fetch()
            && p.recorded(PageEvent::Fetched(next)).cursor == next,
{
}

/// While every page gives the cursor of a next one, paging fetches exactly
/// as many pages as allowed and then stops, fetching from the cursor that
/// the last page gave.
pub proof fn lemma_pages_exhausted(p: PostPager, events: Seq<PageEvent>)
    requires
        p.wf(),
        !p.stopped,
        events.len() >= p.iterations - p.fetched,
        forall|i: int| 0 <= i < events.len() ==> (#[trigger] events[i] matches PageEvent::Fetched(c)
            && c is Some),
    ensures
        run(p, events).fetched == p.iterations,
        !run(p, events).can_fetch(),
        p.fetched < p.iterations ==> run(p, events).cursor == match events[p.iterations
            - p.fetched - 1] {
            PageEvent::Fetched(c) => c,
            PageEvent::Failed => p.cursor,
        },
    decreases events.len(),
{
    if p.fetched < p.iterations {
        let q = p.recorded(events[0]);
        let rest = events.drop_first();
        assert(events[0] matches PageEvent::Fetched(c) && c is Some);
        assert forall|i: int| 0 <= i < rest.len() implies (#[trigger] rest[i] matches PageEvent::Fetched(
            c,
        ) && c is Some) by {
            assert(rest[i] == events[i + 1]);
        }
        lemma_pages_exhausted(q, rest);
        if q.fetched < q.iterations {
            assert(rest[q.iterations - q.fetched - 1] == events[p.iterations - p.fetched - 1]);
        }
    }
}

/// A decimal digit.
pub open spec fn is_digit(c: char) -> bool {
    '0' <= c && c <= '9'
}

/// The value of a string of decimal digits.
pub open spec fn digits_value(ds: Seq<char>) -> int
    decreases ds.len(),
{
    if ds.len() == 0 {
        0
    } else {
        digits_value(ds.drop_last()) * 10 + (ds.last() as int - '0' as int)
    }
}

/// Every character is a decimal digit.
pub open spec fn all_digits(ds: Seq<char>) -> bool {
    forall|i: int| 0 <= i < ds.len() ==> #[trigger] is_digit(ds[i])
}

/// The digits of a number's text: what follows a leading `+`, if any.
pub open spec fn unsigned_digits(text: Seq<char>) -> Seq<char> {
    if text.len() > 0 && text[0] == '+' {
        text.drop_first()
    } else {
        text
    }
}

/// What `text.parse::<u64>()` gives: an optional `+` followed by one or more
/// decimal digits whose value fits in a `u64`; `None` for anything else.
pub open spec fn parsed_u64(text: Seq<char>) -> Option<u64> {
    let ds = unsigned_digits(text);
    if ds.len() > 0 && all_digits(ds) && digits_value(ds) <= u64::MAX {
        Some(digits_value(ds) as u64)
    } else {
        None
    }
}

/// A leading `+` does not change the number a text reads as, and a digit put
/// after the digits of a number that is read makes it ten times as large plus
/// that digit, as long as the result fits in a `u64`.
pub proof fn lemma_parsed_u64(ds: Seq<char>, c: char, n: u64)
    ensures
        ds.len() == 0 || ds[0] != '+' ==> parsed_u64(seq!['+'] + ds) == parsed_u64(ds),
        ds.len() > 0 && ds[0] != '+' && parsed_u64(ds) == Some(n) && is_digit(c) && n * 10 + (
        c as int - '0' as int) <= u64::MAX ==> parsed_u64(ds.push(c)) == Some(
            (n * 10 + (c as int - '0' as int)) as u64,
        ),
{
    assert((seq!['+'] + ds).drop_first() =~= ds);
    if ds.len() > 0 && ds[0] != '+' && parsed_u64(ds) == Some(n) && is_digit(c) {
        let e = ds.push(c);
        assert(unsigned_digits(e) == e);
        assert(unsigned_digits(ds) == ds);
        assert(e.drop_last() =~= ds);
        assert(all_digits(ds));
        assert forall|i: int| 0 <= i < e.len() implies #[trigger] is_digit(e[i]) by {
            if i < ds.len() {
                assert(e[i] == ds[i]);
            }
        }
        lemma_digits_nonneg(ds);
    }
}

/// The value of a string of digits is not negative.
proof fn lemma_digits_nonneg(ds: Seq<char>)
    requires
        forall|i: int| 0 <= i < ds.len() ==> #[trigger] is_digit(ds[i]),
    ensures
        digits_value(ds) >= 0,
    decreases ds.len(),
{
    if ds.len() > 0 {
        assert forall|i: int| 0 <= i < ds.drop_last().len() implies #[trigger] is_digit(
            ds.drop_last()[i],
        ) by {
            assert(ds.drop_last()[i] == ds[i]);
        }
        lemma_digits_nonneg(ds.drop_last());
        assert(is_digit(ds[ds.len() - 1]));
    }
}

/// A longer prefix of a string of digits has no smaller value.
proof fn lemma_digits_monotone(ds: Seq<char>, j: int, k: int)
    requires
        0 <= j <= k <= ds.len(),
        forall|i: int| 0 <= i < ds.len() ==> #[trigger] is_digit(ds[i]),
    ensures
        digits_value(ds.take(j)) <= digits_value(ds.take(k)),
    decreases k - j,
{
    if j < k {
        lemma_digits_monotone(ds, j, k - 1);
        assert(ds.take(k).drop_last() =~= ds.take(k - 1));
        assert forall|i: int| 0 <= i < ds.take(k - 1).len() implies #[trigger] is_digit(
            ds.take(k - 1)[i],
        ) by {
            assert(ds.take(k - 1)[i] == ds[i]);
        }
        lemma_digits_nonneg(ds.take(k - 1));
        assert(is_digit(ds[k - 1]));
    }
}

/// The number of pages to fetch, from the argument that gives it: all of
/// them when there is no argument, `None` when it is not a valid `u64`.
pub fn iterations_limit(arg: Option<&str>) -> (r: Option<u64>)
    ensures
        r == match arg {
            Some(text) => parsed_u64(text@),
            None => Some(u64::MAX),
        },
{
    let text = match arg {
        Some(text) => text,
        None => return Some(u64::MAX),
    };
    let cs = chars_of(text);
    let start: usize = if cs.len() > 0 && cs[0] == '+' {
        1
    } else {
        0
    };
    let ghost ds = unsigned_digits(cs@);
    assert(ds =~= cs@.skip(start as int));
    if start >= cs.len() {
        return None;
    }
    let mut value: u64 = 0;
    let mut i = start;
    while i < cs.len()
        invariant
            arg == Some(text),
            cs@ == text@,
            ds == cs@.skip(start as int),
            ds == unsigned_digits(cs@),
            start <= i <= cs@.len(),
            value == digits_value(ds.take(i - start)),
            forall|k: int| 0 <= k < i - start ==> #[trigger] is_digit(ds[k]),
        decreases cs@.len() - i,
    {
        let c = cs[i];
        assert(ds[i - start] == c);
        if !('0' <= c && c <= '9') {
            assert(!is_digit(ds[i - start]));
            assert(!all_digits(ds));
            return None;
        }
        let d = (c as u32 - '0' as u32) as u64;
        assert(ds.take(i - start + 1).drop_last() =~= ds.take(i - start));
        if value > (u64::MAX - d) / 10 {
            proof {
                assert(digits_value(ds.take(i - start + 1)) > u64::MAX);
                if all_digits(ds) {
                    lemma_digits_monotone(ds, i - start + 1, ds.len() as int);
                    assert(ds.take(ds.len() as int) =~= ds);
                }
            }
            return None;
        }
        value = value * 10 + d;
        i = i + 1;
    }
    assert(ds.take(i - start) =~= ds);
    Some(value)
}

} // verus!
