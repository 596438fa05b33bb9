//! Page arithmetic for a bounded, paginated time-series load.
//!
//! A [`PageScheduler`] is built once per load from a [`TimeWindow`], a
//! [`SamplingInterval`] and a per-request page limit. It knows how many
//! samples the window needs, how many pages that takes, which timestamp the
//! next page starts at, and how far the load has come. It does no I/O.

use vstd::arithmetic::div_mod::{lemma_fundamental_div_mod, lemma_mod_bound};
use vstd::arithmetic::mul::{
    lemma_mul_inequality, lemma_mul_is_commutative, lemma_mul_is_distributive_sub,
};
use vstd::prelude::*;

verus! {

/// Milliseconds in one minute.
pub const MINUTE_MILLIS: u64 = 60_000;

/// Milliseconds in one hour.
pub const HOUR_MILLIS: u64 = 3_600_000;

/// Milliseconds in one day.
pub const DAY_MILLIS: u64 = 86_400_000;

/// Fixed sampling step between consecutive samples of a series.
///
/// Each variant maps to a fixed duration used purely for arithmetic when a
/// time range is converted into a sample count.
#[derive(Clone, Copy, Debug, PartialEq, Eq, Structural)]
pub enum SamplingInterval {
    Minute,
    Hour,
    Day,
}

impl SamplingInterval {
    /// Duration of one sampling step, in milliseconds.
    pub open spec fn spec_duration_millis(self) -> int {
        match self {
            SamplingInterval::Minute => MINUTE_MILLIS as int,
            SamplingInterval::Hour => HOUR_MILLIS as int,
            SamplingInterval::Day => DAY_MILLIS as int,
        }
    }

    /// Duration of one sampling step, in milliseconds.
    pub fn duration_millis(&self) -> (d: u64)
        ensures
            d == self.spec_duration_millis(),
            1 <= d <= DAY_MILLIS,
    {
        match self {
            SamplingInterval::Minute => MINUTE_MILLIS,
            SamplingInterval::Hour => HOUR_MILLIS,
            SamplingInterval::Day => DAY_MILLIS,
        }
    }
}

/// A caller-requested time range, as millisecond timestamps.
///
/// Only windows with `start < end` are accepted for loading.
#[derive(Clone, Copy, Debug, PartialEq, Eq, Structural)]
pub struct TimeWindow {
    /// Inclusive start of the range, in milliseconds.
    pub start: i64,
    /// Exclusive end of the range, in milliseconds.
    pub end: i64,
}

impl TimeWindow {
    /// A window is valid when it spans a positive amount of time.
    pub open spec fn spec_is_valid(self) -> bool {
        self.start < self.end
    }

    /// A window is valid when it spans a positive amount of time.
    pub fn is_valid(&self) -> (r: bool)
        ensures
            r == self.spec_is_valid(),
    {
        self.start < self.end
    }
}

/// Why a load request was rejected before any fetching began.
#[derive(Clone, Copy, Debug, PartialEq, Eq, Structural)]
pub enum LoadError {
    /// The window had `start >= end`, or the page limit was zero.
    InvalidWindow,
}

/// Fraction of a load that has arrived: `pages_received` out of
/// `pages_total` pages, i.e. the rational `pages_received / pages_total`
/// (taken as complete when `pages_total` is zero).
#[derive(Clone, Copy, Debug, PartialEq, Eq, Structural)]
pub struct Progress {
    /// Pages merged so far.
    pub pages_received: usize,
    /// Pages the whole load needs.
    pub pages_total: usize,
}

/// `a / b` rounded towards positive infinity, for positive `b`.
pub open spec fn ceil_div(a: int, b: int) -> int {
    (a + b - 1) / b
}

/// Samples needed to cover `w` at one sample per step of `iv`.
pub open spec fn spec_total_samples(w: TimeWindow, iv: SamplingInterval) -> int {
    ceil_div(w.end - w.start, iv.spec_duration_millis())
}

/// Pages needed to fetch `total_samples` samples at `limit` per page.
pub open spec fn spec_total_pages(total_samples: int, limit: int) -> int {
    ceil_div(total_samples, limit)
}

/// Basic bounds of the ceiling division: for positive `a` and `b`, the
/// quotient is in `[1, a]`, covers `a`, and all but the last step is short
/// of `a`.
pub proof fn lemma_ceil_div_properties(a: int, b: int)
    requires
        a >= 1,
        b >= 1,
    ensures
        1 <= ceil_div(a, b),
        ceil_div(a, b) <= a,
        b * (ceil_div(a, b) - 1) < a,
        a <= b * ceil_div(a, b),
{
    let x = a + b - 1;
    let q = x / b;
    let m = x % b;
    lemma_fundamental_div_mod(x, b);
    lemma_mod_bound(x, b);
    assert(b * q == x - m);
    assert(a <= b * q);
    lemma_mul_is_distributive_sub(b, q, 1);
    assert(b * (q - 1) == b * q - b);
    assert(b * (q - 1) < a);
    assert(q >= 1) by (nonlinear_arith)
        requires
            b * q >= a,
            a >= 1,
            b >= 1,
    ;
    assert(q <= a) by (nonlinear_arith)
        requires
            b * (q - 1) < a,
            q >= 1,
            b >= 1,
    ;
}

/// Pure page bookkeeping for one load: how many samples and pages a window
/// needs, where the next page starts, and how many pages have arrived.
///
/// Built by [`PageScheduler::new`] once per load; only `received` ever
/// changes afterwards, through [`PageScheduler::advance`].
#[derive(Clone, Copy, Debug, PartialEq, Eq, Structural)]
pub struct PageScheduler {
    /// The time range this load covers.
    pub window: TimeWindow,
    /// Sampling step of the series.
    pub interval: SamplingInterval,
    /// Most samples one fetch may return; positive.
    pub limit: usize,
    /// Samples the window needs in total.
    pub total_samples: usize,
    /// Pages the load needs in total.
    pub total_pages: usize,
    /// Samples the final page asks for; equals `limit` when the window
    /// divides evenly.
    pub last_page_limit: usize,
    /// Pages received and merged so far.
    pub received: usize,
}

impl PageScheduler {
    /// The derived fields agree with the window, interval and limit, and
    /// `received` has not run past the end.
    pub open spec fn wf(self) -> bool {
        &&& self.window.spec_is_valid()
        &&& self.limit >= 1
        &&& self.total_samples == spec_total_samples(self.window, self.interval)
        &&& self.total_pages == spec_total_pages(self.total_samples as int, self.limit as int)
        &&& self.last_page_limit == self.total_samples - (self.total_pages - 1) * self.limit
        &&& self.received <= self.total_pages
    }

    /// Bounds every well-formed scheduler obeys: at least one sample and one
    /// page, a final page of `1..=limit` samples, and full pages short of the
    /// total that the final page tops up exactly.
    pub proof fn lemma_wf_bounds(self)
        requires
            self.wf(),
        ensures
            1 <= self.total_samples,
            1 <= self.total_pages <= self.total_samples,
            1 <= self.last_page_limit <= self.limit,
            (self.total_pages - 1) * self.limit < self.total_samples,
            self.total_samples <= self.total_pages * self.limit,
    {
        let span = self.window.end - self.window.start;
        let dur = self.interval.spec_duration_millis();
        let ts = self.total_samples as int;
        let tp = self.total_pages as int;
        let lim = self.limit as int;
        lemma_ceil_div_properties(span, dur);
        assert(ts >= 1);
        lemma_ceil_div_properties(ts, lim);
        assert(lim * (tp - 1) < ts);
        assert(ts <= lim * tp);
        assert((tp - 1) * lim == lim * (tp - 1)) by (nonlinear_arith);
        assert(tp * lim == lim * tp) by (nonlinear_arith);
        assert(1 <= self.last_page_limit);
        lemma_mul_is_distributive_sub(lim, tp, 1);
        assert(lim * (tp - 1) == lim * tp - lim * 1);
        assert(self.last_page_limit <= self.limit);
    }

    /// Builds the scheduler for one load, or rejects the request.
    ///
    /// Fails exactly when the window is not a positive range or the page
    /// limit is zero; on success all derived fields are computed and no page
    /// has been received yet.
    pub fn new(window: TimeWindow, interval: SamplingInterval, limit: usize) -> (r: Result<
        PageScheduler,
        LoadError,
    >)
        requires
            window.spec_is_valid() ==> spec_total_samples(window, interval) <= usize::MAX,
        ensures
            r is Ok <==> window.spec_is_valid() && limit >= 1,
            r matches Ok(s) ==> {
                &&& s.wf()
                &&& s.window == window
                &&& s.interval == interval
                &&& s.limit == limit
                &&& s.received == 0
            },
            r matches Err(e) ==> e is InvalidWindow,
    {
        if !window.is_valid() || limit == 0 {
            return Err(LoadError::InvalidWindow);
        }
        let dur_small: u64 = interval.duration_millis();
        let span: u128 = ((window.end as i128) - (window.start as i128)) as u128;
        let dur: u128 = dur_small as u128;
        proof {
            assert(span == window.end - window.start);
            lemma_ceil_div_properties(span as int, dur as int);
        }
        let ts_wide: u128 = (span + dur - 1) / dur;
        assert(ts_wide == spec_total_samples(window, interval));
        let total_samples: usize = ts_wide as usize;
        let lim: u128 = limit as u128;
        proof {
            lemma_ceil_div_properties(ts_wide as int, lim as int);
            lemma_mul_is_commutative(lim as int, (ceil_div(ts_wide as int, lim as int) - 1) as int);
        }
        let tp_wide: u128 = (ts_wide + lim - 1) / lim;
        let total_pages: usize = tp_wide as usize;
        let last_wide: u128 = ts_wide - (tp_wide - 1) * lim;
        let last_page_limit: usize = last_wide as usize;
        Ok(PageScheduler {
            window,
            interval,
            limit,
            total_samples,
            total_pages,
            last_page_limit,
            received: 0,
        })
    }

    /// True when the page about to be fetched is the final one.
    pub open spec fn spec_is_last_page(self) -> bool {
        self.received == self.total_pages - 1
    }

    /// True when the page about to be fetched is the final one.
    pub fn is_last_page(&self) -> (r: bool)
        requires
            self.wf(),
        ensures
            r == self.spec_is_last_page(),
    {
        proof {
            self.lemma_wf_bounds();
        }
        self.received == self.total_pages - 1
    }

    /// How many samples page `p` asks for: the final page may be short, all
    /// others ask for the full `limit`.
    pub open spec fn spec_page_limit(self, p: int) -> int {
        if p == self.total_pages - 1 {
            self.last_page_limit as int
        } else {
            self.limit as int
        }
    }

    /// The limit to request for the page about to be fetched.
    pub open spec fn spec_current_page_limit(self) -> int {
        self.spec_page_limit(self.received as int)
    }

    /// The limit to request for the page about to be fetched.
    pub fn current_page_limit(&self) -> (r: usize)
        requires
            self.wf(),
        ensures
            r == self.spec_current_page_limit(),
    {
        if self.is_last_page() {
            self.last_page_limit
        } else {
            self.limit
        }
    }

    /// Start timestamp of page `p`: the window start, advanced by the `p`
    /// full pages before it.
    pub open spec fn spec_left_edge_at(self, p: int) -> int {
        self.window.start + p * self.limit * self.interval.spec_duration_millis()
    }

    /// Start timestamp of the page about to be fetched.
    pub open spec fn spec_left_edge(self) -> int {
        self.spec_left_edge_at(self.received as int)
    }

    /// Start timestamp to request for the next page fetch.
    ///
    /// Meaningful only while the load is unfinished; the result always lies
    /// inside the window.
    pub fn left_edge(&self) -> (r: i64)
        requires
            self.wf(),
            self.received < self.total_pages,
        ensures
            r == self.spec_left_edge(),
            self.window.start <= r < self.window.end,
    {
        let ghost p = self.received as int;
        let ghost lim = self.limit as int;
        let ghost dur_g = self.interval.spec_duration_millis();
        let ghost span = self.window.end - self.window.start;
        let ghost ts = self.total_samples as int;
        let ghost tp = self.total_pages as int;
        proof {
            self.lemma_wf_bounds();
            lemma_ceil_div_properties(span, dur_g);
            lemma_mul_inequality(p, tp - 1, lim);
            assert(p * lim <= (tp - 1) * lim);
            lemma_mul_is_commutative(tp - 1, lim);
            assert((tp - 1) * lim < ts);
            lemma_mul_inequality(p * lim, ts - 1, dur_g);
            assert((p * lim) * dur_g <= (ts - 1) * dur_g);
            lemma_mul_is_commutative(ts - 1, dur_g);
            assert(dur_g * (ts - 1) < span);
            assert(p * lim * dur_g < span);
            assert(p * lim * dur_g >= 0) by (nonlinear_arith)
                requires
                    p >= 0,
                    lim >= 0,
                    dur_g >= 0,
            ;
        }
        let dur: u128 = self.interval.duration_millis() as u128;
        let offset: u128 = (self.received as u128) * (self.limit as u128) * dur;
        let edge_wide: i128 = (self.window.start as i128) + (offset as i128);
        edge_wide as i64
    }

    /// True when every page has been received.
    pub open spec fn spec_is_finished(self) -> bool {
        self.received >= self.total_pages
    }

    /// True when every page has been received.
    pub fn is_finished(&self) -> (r: bool)
        ensures
            r == self.spec_is_finished(),
    {
        self.received >= self.total_pages
    }

    /// The fraction of pages received so far.
    pub open spec fn spec_progress(self) -> Progress {
        Progress { pages_received: self.received, pages_total: self.total_pages }
    }

    /// The fraction of pages received so far.
    pub fn progress(&self) -> (r: Progress)
        ensures
            r == self.spec_progress(),
            r.pages_received == self.received,
            r.pages_total == self.total_pages,
    {
        Progress { pages_received: self.received, pages_total: self.total_pages }
    }

    /// Records that one more page has arrived.
    ///
    /// Calling this on a finished scheduler is a caller bug, so finished
    /// schedulers are excluded outright.
    pub fn advance(&mut self)
        requires
            old(self).wf(),
            old(self).received < old(self).total_pages,
        ensures
            final(self).received == old(self).received + 1,
            final(self).window == old(self).window,
            final(self).interval == old(self).interval,
            final(self).limit == old(self).limit,
            final(self).total_samples == old(self).total_samples,
            final(self).total_pages == old(self).total_pages,
            final(self).last_page_limit == old(self).last_page_limit,
            final(self).wf(),
    {
        self.received = self.received + 1;
    }
}

/// Sum of the limits requested for the first `k` pages of `s`.
pub open spec fn sum_page_limits(s: PageScheduler, k: int) -> int
    decreases k,
{
    if k <= 0 {
        0
    } else {
        sum_page_limits(s, k - 1) + s.spec_page_limit(k - 1)
    }
}

proof fn lemma_full_pages_sum(s: PageScheduler, k: int)
    requires
        s.wf(),
        0 <= k <= s.total_pages - 1,
    ensures
        sum_page_limits(s, k) == k * s.limit,
    decreases k,
{
    if k <= 0 {
        assert(0 * s.limit == 0) by (nonlinear_arith);
    } else {
        lemma_full_pages_sum(s, k - 1);
        assert(s.spec_page_limit(k - 1) == s.limit);
        assert((k - 1) * s.limit + s.limit == k * s.limit) by (nonlinear_arith);
    }
}

/// Law: the limits requested across all pages add up to exactly the number
/// of samples the window needs, which is the span divided by the interval
/// duration, rounded up.
pub proof fn lemma_page_limits_cover_window(s: PageScheduler)
    requires
        s.wf(),
    ensures
        sum_page_limits(s, s.total_pages as int) == s.total_samples,
        s.total_samples == ceil_div(
            s.window.end - s.window.start,
            s.interval.spec_duration_millis(),
        ),
{
    s.lemma_wf_bounds();
    let tp = s.total_pages as int;
    lemma_full_pages_sum(s, tp - 1);
    assert(sum_page_limits(s, tp) == (tp - 1) * s.limit + s.last_page_limit);
}

/// Law: pages start at strictly increasing timestamps: each `advance` moves
/// the left edge forward.
pub proof fn lemma_left_edge_strictly_increasing(s: PageScheduler, p1: int, p2: int)
    requires
        s.wf(),
        0 <= p1 < p2 < s.total_pages,
    ensures
        s.spec_left_edge_at(p1) < s.spec_left_edge_at(p2),
{
    let lim = s.limit as int;
    let dur = s.interval.spec_duration_millis();
    assert(p1 * lim * dur < p2 * lim * dur) by (nonlinear_arith)
        requires
            0 <= p1 < p2,
            lim >= 1,
            dur >= 1,
    ;
}

/// Law: every page starts at or after the window start, and even the last
/// sample a page asks for lies strictly before the window end.
pub proof fn lemma_left_edge_within_window(s: PageScheduler, p: int)
    requires
        s.wf(),
        0 <= p < s.total_pages,
    ensures
        s.window.start <= s.spec_left_edge_at(p),
        s.spec_left_edge_at(p) + (s.spec_page_limit(p) - 1) * s.interval.spec_duration_millis()
            < s.window.end,
{
    s.lemma_wf_bounds();
    let lim = s.limit as int;
    let dur = s.interval.spec_duration_millis();
    let ts = s.total_samples as int;
    let tp = s.total_pages as int;
    let span = s.window.end - s.window.start;
    lemma_ceil_div_properties(span, dur);
    assert(p * lim * dur >= 0) by (nonlinear_arith)
        requires
            p >= 0,
            lim >= 1,
            dur >= 1,
    ;
    // The samples this page asks for never run past the window's total.
    if p == tp - 1 {
        lemma_mul_is_commutative(tp - 1, lim);
        assert(p * lim + s.spec_page_limit(p) == (tp - 1) * lim + s.last_page_limit);
        assert(p * lim + s.spec_page_limit(p) == ts);
    } else {
        assert(s.spec_page_limit(p) == lim);
        assert((p + 1) * lim <= (tp - 1) * lim) by (nonlinear_arith)
            requires
                p + 1 <= tp - 1,
                lim >= 0,
        ;
        assert(p * lim + lim == (p + 1) * lim) by (nonlinear_arith);
        lemma_mul_is_commutative(tp - 1, lim);
        assert((tp - 1) * lim < ts);
        assert(p * lim + s.spec_page_limit(p) <= ts);
    }
    assert((p * lim + s.spec_page_limit(p) - 1) * dur <= (ts - 1) * dur) by (nonlinear_arith)
        requires
            p * lim + s.spec_page_limit(p) <= ts,
            dur >= 1,
    ;
    lemma_mul_is_commutative(ts - 1, dur);
    assert((ts - 1) * dur < span);
    assert((p * lim + s.spec_page_limit(p) - 1) * dur == p * lim * dur + (s.spec_page_limit(p) - 1)
        * dur) by (nonlinear_arith);
}

/// Law: a window that needs exactly `limit` samples is fetched as one single
/// full page, so its progress moves straight from none to all.
pub proof fn lemma_exactly_one_full_page(s: PageScheduler)
    requires
        s.wf(),
        s.total_samples == s.limit,
    ensures
        s.total_pages == 1,
        s.last_page_limit == s.limit,
{
    s.lemma_wf_bounds();
    let lim = s.limit as int;
    let tp = s.total_pages as int;
    assert(tp - 1 < 1) by (nonlinear_arith)
        requires
            (tp - 1) * lim < lim,
            lim >= 1,
            tp >= 1,
    ;
    assert(0 * lim == 0) by (nonlinear_arith);
}

/// Law: a window that needs `k` full pages plus a remainder of `r` samples
/// (`0 < r < limit`) is fetched as `k + 1` pages, the first `k` at the full
/// limit and the last asking for exactly `r`.
pub proof fn lemma_partial_last_page(s: PageScheduler, k: int, r: int)
    requires
        s.wf(),
        0 < r < s.limit,
        s.total_samples == k * s.limit + r,
    ensures
        s.total_pages == k + 1,
        forall|p: int| 0 <= p < k ==> #[trigger] s.spec_page_limit(p) == s.limit,
        s.spec_page_limit(k) == r,
{
    s.lemma_wf_bounds();
    let lim = s.limit as int;
    let ts = s.total_samples as int;
    let tp = s.total_pages as int;
    assert(k >= 0) by (nonlinear_arith)
        requires
            k * lim + r == ts,
            ts >= 1,
            0 < r < lim,
    ;
    lemma_mul_is_commutative(tp - 1, lim);
    assert(tp <= k + 1) by (nonlinear_arith)
        requires
            (tp - 1) * lim < ts,
            ts == k * lim + r,
            0 < r < lim,
            lim >= 1,
    ;
    assert(tp >= k + 1) by (nonlinear_arith)
        requires
            ts <= tp * lim,
            ts == k * lim + r,
            0 < r < lim,
            lim >= 1,
    ;
    assert(s.last_page_limit == ts - k * lim);
}

} // verus!
