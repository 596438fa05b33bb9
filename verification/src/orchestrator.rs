//! The paginated-load state machine that a rendering tick polls.
//!
//! A [`LoadOrchestrator`] owns one [`PageScheduler`] and the running sample
//! buffer of the current load. It never blocks and never fetches by itself:
//! each [`LoadOrchestrator::poll`] consumes what the caller observed of the
//! outstanding fetch (a [`FetchEvent`]) and hands back the outcome of this
//! tick together with at most one new [`FetchRequest`] for the caller to
//! start. At most one fetch is outstanding at any instant, and every request
//! carries the generation of the load it belongs to, so a result that
//! outlives its load is recognised and ignored.

use crate::scheduler::{
    spec_total_samples, LoadError, PageScheduler, Progress, SamplingInterval, TimeWindow,
};
use vstd::pervasive::unreached;
use vstd::prelude::*;

verus! {

/// Why a load ended without its samples: the collaborator reported this
/// failure for one of its pages.
#[derive(Clone, Debug, PartialEq, Eq)]
pub struct FetchError {
    /// The collaborator's description of what went wrong.
    pub message: String,
}

/// One fetch the orchestrator asks its caller to start: request `limit`
/// samples beginning at `start`, and report the result back tagged with
/// `generation`.
#[derive(Clone, Copy, Debug, PartialEq, Eq, Structural)]
pub struct FetchRequest {
    /// Start timestamp of the page, in milliseconds.
    pub start: i64,
    /// Number of samples to request.
    pub limit: usize,
    /// The load this request belongs to.
    pub generation: u64,
}

/// What the caller observed of the outstanding fetch since the last poll.
#[derive(Clone, Debug, PartialEq, Eq)]
pub enum FetchEvent<S> {
    /// No outstanding fetch has completed yet.
    NotReady,
    /// The fetch started for load `generation` returned these samples.
    Succeeded { generation: u64, samples: Vec<S> },
    /// The fetch started for load `generation` failed.
    Failed { generation: u64, error: FetchError },
}

/// What one poll reports to the caller.
#[derive(Clone, Debug, PartialEq, Eq)]
pub enum LoadOutcome<S> {
    /// The load is still under way, this far along.
    Pending(Progress),
    /// The load is done; these are all its samples, in arrival order.
    Complete(Vec<S>),
    /// The load ended with this failure and will not be retried.
    Failed(FetchError),
}

/// Where the current load stands.
#[derive(Clone, Copy, Debug, PartialEq, Eq, Structural)]
pub enum LoadPhase {
    /// A load is configured but no fetch has been started yet.
    Idle,
    /// Exactly one fetch is outstanding.
    AwaitingPage,
    /// Every page has arrived; terminal until the next trigger.
    Finished,
    /// A fetch failed; terminal until the next trigger.
    Failed,
}

/// The outcome of one poll, plus at most one fetch for the caller to start.
#[derive(Clone, Debug, PartialEq, Eq)]
pub struct PollStep<S> {
    /// What this tick reports to the caller.
    pub outcome: LoadOutcome<S>,
    /// The fetch to start now, if any.
    pub request: Option<FetchRequest>,
}

/// `s` with one more page recorded as received.
pub open spec fn spec_advanced(s: PageScheduler) -> PageScheduler {
    PageScheduler { received: (s.received + 1) as usize, ..s }
}

/// Drives one paginated load at a time against an external, non-blocking
/// fetch collaborator, merging pages in arrival order.
pub struct LoadOrchestrator<S> {
    /// Page bookkeeping of the current load; `None` until the first
    /// successful trigger.
    pub scheduler: Option<PageScheduler>,
    /// Where the current load stands.
    pub phase: LoadPhase,
    /// Samples of the current load, in arrival order.
    pub buffer: Vec<S>,
    /// Counts successful triggers; every fetch request carries the value of
    /// the load it belongs to, so results of superseded loads are ignored.
    pub generation: u64,
    /// The failure that ended the current load, if one did.
    pub error: Option<FetchError>,
}

impl<S: Copy> LoadOrchestrator<S> {
    /// The phase, scheduler, buffer and stored failure agree with each
    /// other.
    pub open spec fn wf(self) -> bool {
        &&& match self.scheduler {
            None => self.phase is Idle && self.buffer@.len() == 0,
            Some(s) => {
                &&& s.wf()
                &&& (self.phase is Idle ==> s.received == 0 && self.buffer@.len() == 0)
                &&& (self.phase is AwaitingPage ==> s.received < s.total_pages)
                &&& (self.phase is Finished ==> s.received == s.total_pages)
            },
        }
        &&& (self.phase is Failed <==> self.error is Some)
    }

    /// The fraction of the current load that has arrived; zero of zero pages
    /// while no load was ever triggered.
    pub open spec fn spec_progress(self) -> Progress {
        match self.scheduler {
            None => Progress { pages_received: 0, pages_total: 0 },
            Some(s) => s.spec_progress(),
        }
    }

    /// Whether `event` reports on the fetch of the current load.
    pub open spec fn spec_event_is_current(self, event: FetchEvent<S>) -> bool {
        match event {
            FetchEvent::NotReady => false,
            FetchEvent::Succeeded { generation, .. } => generation == self.generation,
            FetchEvent::Failed { generation, .. } => generation == self.generation,
        }
    }

    /// An orchestrator with no load configured yet.
    pub fn new() -> (r: LoadOrchestrator<S>)
        ensures
            r.wf(),
            r.scheduler is None,
            r.phase is Idle,
            r.buffer@.len() == 0,
            r.generation == 0,
            r.error is None,
    {
        LoadOrchestrator {
            scheduler: None,
            phase: LoadPhase::Idle,
            buffer: Vec::new(),
            generation: 0,
            error: None,
        }
    }

    fn current_progress(&self) -> (p: Progress)
        ensures
            p == self.spec_progress(),
    {
        match &self.scheduler {
            None => Progress { pages_received: 0, pages_total: 0 },
            Some(s) => s.progress(),
        }
    }

    /// Replaces whatever load was under way by a fresh one over `window` at
    /// `interval`, fetched `limit` samples per page.
    ///
    /// Rejects exactly the invalid parameters (an empty or backwards window,
    /// or a zero limit); a rejected trigger leaves the orchestrator as it
    /// was. A successful trigger starts no fetch yet: the next `poll` does.
    pub fn trigger(&mut self, window: TimeWindow, interval: SamplingInterval, limit: usize) -> (r:
        Result<(), LoadError>)
        requires
            old(self).wf(),
            old(self).generation < u64::MAX,
            window.spec_is_valid() ==> spec_total_samples(window, interval) <= usize::MAX,
        ensures
            final(self).wf(),
            r is Ok <==> window.spec_is_valid() && limit >= 1,
            r matches Err(e) ==> e is InvalidWindow && *final(self) == *old(self),
            r is Ok ==> {
                &&& final(self).phase is Idle
                &&& final(self).buffer@.len() == 0
                &&& final(self).generation == old(self).generation + 1
                &&& final(self).error is None
                &&& final(self).scheduler matches Some(s)
                &&& s.wf()
                &&& s.window == window
                &&& s.interval == interval
                &&& s.limit == limit
                &&& s.received == 0
            },
    {
        match PageScheduler::new(window, interval, limit) {
            Err(e) => Err(e),
            Ok(s) => {
                self.scheduler = Some(s);
                self.phase = LoadPhase::Idle;
                self.buffer = Vec::new();
                self.generation = self.generation + 1;
                self.error = None;
                Ok(())
            },
        }
    }

    /// One non-blocking tick of the load.
    ///
    /// The caller reports what it observed of the outstanding fetch in
    /// `event`; the orchestrator merges a completed page, decides whether the
    /// load is done, and hands back the outcome of this tick together with
    /// the fetch to start next, if any. Events that do not carry the current
    /// generation are ignored. A finished or failed load keeps reporting the
    /// same outcome until the next trigger.
    pub fn poll(&mut self, event: FetchEvent<S>) -> (step: PollStep<S>)
        requires
            old(self).wf(),
        ensures
            final(self).wf(),
            final(self).generation == old(self).generation,
            // No load was ever triggered: report empty progress, do nothing.
            old(self).scheduler is None ==> {
                &&& *final(self) == *old(self)
                &&& step.outcome matches LoadOutcome::Pending(p) && p == old(self).spec_progress()
                &&& step.request is None
            },
            // A configured load starts: request page zero's fetch.
            old(self).phase is Idle ==> (old(self).scheduler matches Some(s) ==> {
                &&& final(self).phase is AwaitingPage
                &&& final(self).scheduler == old(self).scheduler
                &&& final(self).buffer == old(self).buffer
                &&& final(self).error is None
                &&& step.outcome matches LoadOutcome::Pending(p) && p == s.spec_progress()
                &&& step.request matches Some(q)
                &&& q.start == s.spec_left_edge()
                &&& q.limit == s.spec_current_page_limit()
                &&& q.generation == old(self).generation
            }),
            // Nothing (relevant) completed: everything, including the
            // reported progress, stays exactly as it was.
            old(self).phase is AwaitingPage && !old(self).spec_event_is_current(event) ==> {
                &&& *final(self) == *old(self)
                &&& step.outcome matches LoadOutcome::Pending(p) && p == old(self).spec_progress()
                &&& step.request is None
            },
            // The outstanding fetch succeeded: its samples are appended in
            // order, nothing is dropped or duplicated, and the load either
            // completes or the next page's fetch is requested.
            old(self).phase is AwaitingPage ==> (old(self).scheduler matches Some(s) ==> (event
                matches FetchEvent::Succeeded { generation, samples } ==> (generation == old(
                self,
            ).generation ==> {
                &&& final(self).scheduler == Some(spec_advanced(s))
                &&& final(self).buffer@ == old(self).buffer@ + samples@
                &&& final(self).error is None
                &&& if s.received + 1 == s.total_pages {
                    &&& final(self).phase is Finished
                    &&& step.outcome matches LoadOutcome::Complete(b)
                    &&& b@ == old(self).buffer@ + samples@
                    &&& step.request is None
                } else {
                    &&& final(self).phase is AwaitingPage
                    &&& step.outcome matches LoadOutcome::Pending(p)
                    &&& p == spec_advanced(s).spec_progress()
                    &&& step.request matches Some(q)
                    &&& q.start == spec_advanced(s).spec_left_edge()
                    &&& q.limit == spec_advanced(s).spec_current_page_limit()
                    &&& q.generation == old(self).generation
                }
            }))),
            // The outstanding fetch failed: the load ends now, with that
            // failure, and is not retried.
            old(self).phase is AwaitingPage ==> (event matches FetchEvent::Failed {
                generation,
                error,
            } ==> (generation == old(self).generation ==> {
                &&& final(self).phase is Failed
                &&& final(self).scheduler == old(self).scheduler
                &&& final(self).buffer == old(self).buffer
                &&& final(self).error matches Some(e)
                &&& e.message@ == error.message@
                &&& step.outcome matches LoadOutcome::Failed(e2)
                &&& e2.message@ == error.message@
                &&& step.request is None
            })),
            // A finished load keeps returning the same complete buffer.
            old(self).phase is Finished ==> {
                &&& *final(self) == *old(self)
                &&& step.outcome matches LoadOutcome::Complete(b)
                &&& b@ == old(self).buffer@
                &&& step.request is None
            },
            // A failed load keeps returning the same failure.
            old(self).phase is Failed ==> {
                &&& *final(self) == *old(self)
                &&& old(self).error matches Some(e0)
                &&& step.outcome matches LoadOutcome::Failed(e)
                &&& e.message@ == e0.message@
                &&& step.request is None
            },
    {
        match self.phase {
            LoadPhase::Idle => {
                match &self.scheduler {
                    None => PollStep {
                        outcome: LoadOutcome::Pending(
                            Progress { pages_received: 0, pages_total: 0 },
                        ),
                        request: None,
                    },
                    Some(sched) => {
                        let s = *sched;
                        proof {
                            s.lemma_wf_bounds();
                        }
                        let start = s.left_edge();
                        let limit = s.current_page_limit();
                        self.phase = LoadPhase::AwaitingPage;
                        PollStep {
                            outcome: LoadOutcome::Pending(s.progress()),
                            request: Some(
                                FetchRequest { start, limit, generation: self.generation },
                            ),
                        }
                    },
                }
            },
            LoadPhase::AwaitingPage => {
                match event {
                    FetchEvent::NotReady => PollStep {
                        outcome: LoadOutcome::Pending(self.current_progress()),
                        request: None,
                    },
                    FetchEvent::Succeeded { generation, samples } => {
                        if generation == self.generation {
                            let mut s = self.scheduler.unwrap();
                            let mut arrived = samples;
                            self.buffer.append(&mut arrived);
                            s.advance();
                            self.scheduler = Some(s);
                            if s.is_finished() {
                                self.phase = LoadPhase::Finished;
                                PollStep {
                                    outcome: LoadOutcome::Complete(copy_samples(&self.buffer)),
                                    request: None,
                                }
                            } else {
                                proof {
                                    s.lemma_wf_bounds();
                                }
                                let start = s.left_edge();
                                let limit = s.current_page_limit();
                                PollStep {
                                    outcome: LoadOutcome::Pending(s.progress()),
                                    request: Some(
                                        FetchRequest { start, limit, generation: self.generation },
                                    ),
                                }
                            }
                        } else {
                            PollStep {
                                outcome: LoadOutcome::Pending(self.current_progress()),
                                request: None,
                            }
                        }
                    },
                    FetchEvent::Failed { generation, error } => {
                        if generation == self.generation {
                            self.phase = LoadPhase::Failed;
                            self.error = Some(FetchError { message: error.message.clone() });
                            PollStep { outcome: LoadOutcome::Failed(error), request: None }
                        } else {
                            PollStep {
                                outcome: LoadOutcome::Pending(self.current_progress()),
                                request: None,
                            }
                        }
                    },
                }
            },
            LoadPhase::Finished => PollStep {
                outcome: LoadOutcome::Complete(copy_samples(&self.buffer)),
                request: None,
            },
            LoadPhase::Failed => {
                match &self.error {
                    Some(e0) => PollStep {
                        outcome: LoadOutcome::Failed(FetchError { message: e0.message.clone() }),
                        request: None,
                    },
                    None => unreached(),
                }
            },
        }
    }
}

/// A fresh vector holding the same samples in the same order.
fn copy_samples<S: Copy>(v: &Vec<S>) -> (r: Vec<S>)
    ensures
        r@ == v@,
{
    let mut r: Vec<S> = Vec::new();
    let mut i: usize = 0;
    while i < v.len()
        invariant
            i <= v.len(),
            r@ == v@.subrange(0, i as int),
        decreases v.len() - i,
    {
        r.push(v[i]);
        i = i + 1;
    }
    proof {
        assert(r@ =~= v@);
    }
    r
}

} // verus!
