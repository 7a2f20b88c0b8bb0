//! The parallel requester: which upstream requests may run, and what their
//! outcomes add up to.
//!
//! A requester is made with a ceiling. Requests are registered with `request_one`
//! and wait in the order of registration; `start_next` hands out the next one as
//! long as a slot is free; `finish` takes an outcome and frees the slot. The
//! caller performs the requests, and collects with `gather` once all have finished.

use vstd::prelude::*;
use crate::text::{find, has_text, lemma_position, position};
use crate::tt::TTError;

verus! {

/// Requests that wait, requests that run, and the outcomes so far. A requester made
/// by `new` and used through its methods is well formed (`wf`) at all times: no
/// more requests run than the ceiling allows.
pub struct ParallelRequester<T> {
    ceiling: usize,
    waiting: Vec<String>,
    running: Vec<String>,
    results: Vec<T>,
    failure: Option<TTError>,
}

/// What a [`ParallelRequester`] holds.
pub struct RequesterView<T> {
    /// How many requests may run at once.
    pub ceiling: nat,
    /// The ids that wait for a slot, the oldest first.
    pub waiting: Seq<String>,
    /// The ids whose requests run.
    pub running: Seq<String>,
    /// What the requests that succeeded returned, in the order in which they
    /// finished.
    pub results: Seq<T>,
    /// The first failure, if a request has failed.
    pub failure: Option<TTError>,
}

impl<T> RequesterView<T> {
    /// The ceiling is at least 1, and no more requests run than it allows.
    pub open spec fn wf(self) -> bool {
        1 <= self.ceiling && self.running.len() <= self.ceiling
    }

    /// A request waits and a slot is free.
    pub open spec fn can_start(self) -> bool {
        self.waiting.len() > 0 && self.running.len() < self.ceiling
    }

    /// No request waits and none runs.
    pub open spec fn drained(self) -> bool {
        self.waiting.len() == 0 && self.running.len() == 0
    }

    /// After `request_one(id)`: the id waits behind those that waited before.
    pub open spec fn requested(self, id: String) -> Self {
        RequesterView { waiting: self.waiting.push(id), ..self }
    }

    /// After `start_next`: where a request can start, the oldest one that waits
    /// runs; otherwise nothing changes.
    pub open spec fn started(self) -> Self {
        if self.can_start() {
            RequesterView {
                waiting: self.waiting.drop_first(),
                running: self.running.push(self.waiting[0]),
                ..self
            }
        } else {
            self
        }
    }

    /// After `finish(id, outcome)`: where a request for `id` runs, its slot is
    /// free again, and the outcome is kept: a result behind the earlier results, a
    /// failure only where none came before. Otherwise nothing changes.
    pub open spec fn finished(self, id: Seq<char>, outcome: Result<T, TTError>) -> Self {
        if has_text(self.running, id) {
            let running = self.running.remove(position(self.running, id));
            match outcome {
                Ok(t) => RequesterView { running, results: self.results.push(t), ..self },
                Err(e) => RequesterView {
                    running,
                    failure: if self.failure is None {
                        Some(e)
                    } else {
                        self.failure
                    },
                    ..self
                },
            }
        } else {
            self
        }
    }

    /// What `gather` returns: nothing while work is outstanding; then the first
    /// failure, or all results where no request failed.
    pub open spec fn gathered(self) -> Option<Result<Seq<T>, TTError>> {
        if !self.drained() {
            None
        } else {
            Some(
                match self.failure {
                    Some(e) => Err(e),
                    None => Ok(self.results),
                },
            )
        }
    }
}

/// One use of a requester.
pub enum Step<T> {
    /// `request_one` with this id.
    Request(String),
    /// `start_next`.
    Start,
    /// `finish` with this id and outcome.
    Finish(String, Result<T, TTError>),
}

impl<T> RequesterView<T> {
    /// A requester on which nothing was done yet.
    pub open spec fn fresh(ceiling: nat) -> Self {
        RequesterView {
            ceiling,
            waiting: Seq::empty(),
            running: Seq::empty(),
            results: Seq::empty(),
            failure: None,
        }
    }

    /// The requester after one step.
    pub open spec fn after(self, step: Step<T>) -> Self {
        match step {
            Step::Request(id) => self.requested(id),
            Step::Start => self.started(),
            Step::Finish(id, outcome) => self.finished(id@, outcome),
        }
    }

    /// The requester after `steps`, one after the other.
    pub open spec fn after_all(self, steps: Seq<Step<T>>) -> Self
        decreases steps.len(),
    {
        if steps.len() == 0 {
            self
        } else {
            self.after_all(steps.drop_last()).after(steps.last())
        }
    }
}

/// How many of `steps` register a request.
pub open spec fn registered<T>(steps: Seq<Step<T>>) -> nat
    decreases steps.len(),
{
    if steps.len() == 0 {
        0
    } else {
        registered(steps.drop_last()) + (if steps.last() is Request {
            1nat
        } else {
            0nat
        })
    }
}

/// Each step keeps the number of running requests within the ceiling.
pub proof fn lemma_ceiling_is_kept<T>(r: RequesterView<T>, step: Step<T>)
    requires
        r.wf(),
    ensures
        r.after(step).wf(),
        r.after(step).ceiling == r.ceiling,
{
    if let Step::Finish(id, outcome) = step {
        lemma_position(r.running, id@);
    }
}

/// However a requester is used, it never lets more requests run than its ceiling
/// allows: after any steps on a new requester with ceiling `ceiling`, at most
/// `ceiling` requests run.
pub proof fn lemma_never_above_ceiling<T>(ceiling: nat, steps: Seq<Step<T>>)
    requires
        ceiling >= 1,
    ensures
        RequesterView::<T>::fresh(ceiling).after_all(steps).wf(),
        RequesterView::<T>::fresh(ceiling).after_all(steps).ceiling == ceiling,
        RequesterView::<T>::fresh(ceiling).after_all(steps).running.len() <= ceiling,
    decreases steps.len(),
{
    if steps.len() > 0 {
        lemma_never_above_ceiling::<T>(ceiling, steps.drop_last());
        lemma_ceiling_is_kept(
            RequesterView::<T>::fresh(ceiling).after_all(steps.drop_last()),
            steps.last(),
        );
    }
}

/// As long as no request has failed, none is lost: the requests that wait, those
/// that run and the results together are as many as were registered. So once all
/// work has finished without a failure, `gather` returns a result for every
/// request.
pub proof fn lemma_no_request_is_lost<T>(ceiling: nat, steps: Seq<Step<T>>)
    requires
        ceiling >= 1,
    ensures
        ({
            let r = RequesterView::<T>::fresh(ceiling).after_all(steps);
            &&& r.failure is None ==> r.waiting.len() + r.running.len() + r.results.len()
                == registered(steps)
            &&& r.gathered() matches Some(Ok(results)) ==> results.len() == registered(steps)
        }),
    decreases steps.len(),
{
    if steps.len() > 0 {
        let before = RequesterView::<T>::fresh(ceiling).after_all(steps.drop_last());
        lemma_no_request_is_lost::<T>(ceiling, steps.drop_last());
        if let Step::Finish(id, outcome) = steps.last() {
            lemma_position(before.running, id@);
        }
    }
}

impl<T> View for ParallelRequester<T> {
    type V = RequesterView<T>;

    closed spec fn view(&self) -> RequesterView<T> {
        RequesterView {
            ceiling: self.ceiling as nat,
            waiting: self.waiting@,
            running: self.running@,
            results: self.results@,
            failure: self.failure,
        }
    }
}

impl<T> ParallelRequester<T> {
    /// A requester that lets `ceiling` requests run at once, with nothing
    /// registered.
    pub fn new(ceiling: usize) -> (r: Self)
        requires
            ceiling >= 1,
        ensures
            r@ == (RequesterView::<T> {
                ceiling: ceiling as nat,
                waiting: Seq::empty(),
                running: Seq::empty(),
                results: Seq::empty(),
                failure: None,
            }),
            r@.wf(),
    {
        ParallelRequester {
            ceiling,
            waiting: Vec::new(),
            running: Vec::new(),
            results: Vec::new(),
            failure: None,
        }
    }

    /// Registers `id` for retrieval. Nothing is requested yet.
    pub fn request_one(&mut self, id: String)
        requires
            old(self)@.wf(),
        ensures
            final(self)@ == old(self)@.requested(id),
            final(self)@.wf(),
    {
        self.waiting.push(id);
    }

    /// Takes a slot for the oldest request that waits and returns its id, for the
    /// caller to perform the request. Returns `None`, and changes nothing, where
    /// no request waits or every slot is taken.
    pub fn start_next(&mut self) -> (id: Option<String>)
        requires
            old(self)@.wf(),
        ensures
            final(self)@ == old(self)@.started(),
            final(self)@.wf(),
            match id {
                Some(id) => old(self)@.can_start() && id == old(self)@.waiting[0],
                None => !old(self)@.can_start(),
            },
    {
        if self.waiting.len() > 0 && self.running.len() < self.ceiling {
            let id = self.waiting.remove(0);
            self.running.push(id.clone());
            Some(id)
        } else {
            None
        }
    }

    /// Takes the outcome of the request for `id` and frees its slot. Returns
    /// whether such a request was running; where none was, nothing changes.
    pub fn finish(&mut self, id: &str, outcome: Result<T, TTError>) -> (was_running: bool)
        requires
            old(self)@.wf(),
        ensures
            final(self)@ == old(self)@.finished(id@, outcome),
            final(self)@.wf(),
            was_running == has_text(old(self)@.running, id@),
    {
        proof {
            lemma_position(self.running@, id@);
        }
        let i = find(&self.running, id);
        if i < self.running.len() {
            self.running.remove(i);
            match outcome {
                Ok(t) => {
                    self.results.push(t);
                },
                Err(e) => {
                    if self.failure.is_none() {
                        self.failure = Some(e);
                    }
                },
            }
            true
        } else {
            false
        }
    }

    /// How many requests run.
    pub fn in_flight(&self) -> (n: usize)
        ensures
            n == self@.running.len(),
    {
        self.running.len()
    }

    /// How many requests wait for a slot.
    pub fn pending(&self) -> (n: usize)
        ensures
            n == self@.waiting.len(),
    {
        self.waiting.len()
    }

    /// Whether all registered work has finished.
    pub fn is_drained(&self) -> (b: bool)
        ensures
            b == self@.drained(),
    {
        self.waiting.len() == 0 && self.running.len() == 0
    }

    /// The outcome of all the work: `None` while a request waits or runs;
    /// otherwise the first failure, or the results of all requests.
    pub fn gather(self) -> (r: Option<Result<Vec<T>, TTError>>)
        ensures
            match self@.gathered() {
                None => r is None,
                Some(Err(e)) => r == Some(Err::<Vec<T>, TTError>(e)),
                Some(Ok(results)) => r matches Some(Ok(v)) && v@ == results,
            },
    {
        if !self.is_drained() {
            return None;
        }
        match self.failure {
            Some(e) => Some(Err(e)),
            None => Some(Ok(self.results)),
        }
    }
}

} // verus!
