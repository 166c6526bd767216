use vstd::prelude::*;

use crate::metrics::{metrics_of, round_metrics, RoundMetrics};
use crate::partition::samples_per_worker;
use crate::request::IntegrationRequest;

verus! {

/// The worker counts a request asks for, in the order the rounds run: every
/// count from one up to the maximum when profiling, else the maximum alone.
pub open spec fn steps_of(request: IntegrationRequest) -> Seq<usize> {
    if request.profile {
        Seq::new(request.max_workers as nat, |i: int| (i + 1) as usize)
    } else {
        seq![request.max_workers]
    }
}

/// The worker counts of the sweep, in order.
pub fn sweep_steps(request: &IntegrationRequest) -> (r: Vec<usize>)
    requires
        request.wf(),
    ensures
        r@ == steps_of(*request),
{
    let mut steps: Vec<usize> = Vec::new();
    if request.profile {
        let mut i: usize = 0;
        while i < request.max_workers
            invariant
                i <= request.max_workers,
                steps@.len() == i,
                forall|k: int| 0 <= k < steps@.len() ==> steps@[k] == k + 1,
            decreases request.max_workers - i,
        {
            steps.push(i + 1);
            i = i + 1;
        }
        assert(steps@ =~= steps_of(*request));
    } else {
        steps.push(request.max_workers);
        assert(steps@ =~= steps_of(*request));
    }
    steps
}

/// What a round runs with: its worker count and the samples each worker draws.
#[derive(Debug, Clone, Copy, PartialEq, Eq, Structural)]
pub struct RoundPlan {
    pub worker_count: usize,
    pub samples_per_worker: usize,
}

/// Why a sweep stops before all its rounds ran.
#[derive(Debug, Clone, Copy, PartialEq, Eq, Structural)]
pub enum SweepError {
    /// The budget split over this many workers leaves each with no sample.
    EmptyPartition { worker_count: usize },
}

/// What the driver of a sweep does next.
#[derive(Debug, Clone, Copy, PartialEq, Eq, Structural)]
pub enum Action {
    /// Run a round with this plan, then report its time.
    Run(RoundPlan),
    /// Stop the sweep; the rounds already reported stand.
    Abort(SweepError),
    /// Every round has run.
    Done,
}

/// The state of a sweep: the request, how many rounds have been reported,
/// and the time of the first round once it is known.
pub struct SweepController {
    request: IntegrationRequest,
    completed: usize,
    baseline_micros: Option<u64>,
}

impl SweepController {
    /// The request being swept.
    pub closed spec fn request(&self) -> IntegrationRequest {
        self.request
    }

    /// How many rounds have been reported.
    pub closed spec fn completed(&self) -> nat {
        self.completed as nat
    }

    /// The time of the first round, once it has been reported.
    pub closed spec fn baseline(&self) -> Option<u64> {
        self.baseline_micros
    }

    /// The request is valid, no more rounds are reported than it asks for,
    /// and the baseline is known exactly once a round has been reported.
    pub closed spec fn wf(&self) -> bool {
        &&& self.request.wf()
        &&& self.completed <= steps_of(self.request).len()
        &&& (self.baseline_micros is Some <==> self.completed > 0)
    }

    /// Every round has been reported.
    pub open spec fn finished(&self) -> bool {
        self.completed() >= steps_of(self.request()).len()
    }

    /// The worker count of the next round, while one is left.
    pub open spec fn current_step(&self) -> usize {
        if self.request().profile {
            (self.completed() + 1) as usize
        } else {
            self.request().max_workers
        }
    }

    /// The action owed in this state.
    pub open spec fn action_of(&self) -> Action {
        if self.finished() {
            Action::Done
        } else if self.request().total_samples / self.current_step() == 0 {
            Action::Abort(SweepError::EmptyPartition { worker_count: self.current_step() })
        } else {
            Action::Run(
                RoundPlan {
                    worker_count: self.current_step(),
                    samples_per_worker: self.request().total_samples / self.current_step(),
                },
            )
        }
    }

    /// The metrics reported for the next round if it took `elapsed_micros`:
    /// the first round sets the baseline against which every round is measured.
    pub open spec fn metrics_for(&self, elapsed_micros: u64) -> RoundMetrics {
        let baseline = match self.baseline() {
            Some(b) => b,
            None => elapsed_micros,
        };
        metrics_of(self.current_step(), baseline, elapsed_micros)
    }

    /// A sweep over the rounds of `request`, none of them run yet.
    pub fn new(request: IntegrationRequest) -> (r: SweepController)
        requires
            request.wf(),
        ensures
            r.wf(),
            r.request() == request,
            r.completed() == 0,
            r.baseline() is None,
    {
        SweepController { request, completed: 0, baseline_micros: None }
    }

    /// How many rounds have been reported.
    pub fn completed_rounds(&self) -> (r: usize)
        ensures
            r == self.completed(),
    {
        self.completed
    }

    fn step_at(&self) -> (r: usize)
        requires
            self.wf(),
            !self.finished(),
        ensures
            r == self.current_step(),
            r >= 1,
    {
        if self.request.profile {
            self.completed + 1
        } else {
            self.request.max_workers
        }
    }

    /// Decides what happens next: run the next round, stop because its
    /// workers would draw no sample, or end the sweep.
    pub fn next_action(&self) -> (r: Action)
        requires
            self.wf(),
        ensures
            r == self.action_of(),
    {
        if self.completed >= steps_of_len(&self.request) {
            Action::Done
        } else {
            let w = self.step_at();
            let per = samples_per_worker(self.request.total_samples, w);
            if per == 0 {
                Action::Abort(SweepError::EmptyPartition { worker_count: w })
            } else {
                Action::Run(RoundPlan { worker_count: w, samples_per_worker: per })
            }
        }
    }

    /// Records that the next round took `elapsed_micros` and returns its metrics.
    pub fn complete_round(&mut self, elapsed_micros: u64) -> (r: RoundMetrics)
        requires
            old(self).wf(),
            !old(self).finished(),
        ensures
            final(self).wf(),
            r == old(self).metrics_for(elapsed_micros),
            final(self).request() == old(self).request(),
            final(self).completed() == old(self).completed() + 1,
            final(self).baseline() == (match old(self).baseline() {
                Some(b) => Some(b),
                None => Some(elapsed_micros),
            }),
    {
        let w = self.step_at();
        let baseline = match self.baseline_micros {
            Some(b) => b,
            None => elapsed_micros,
        };
        self.baseline_micros = Some(baseline);
        self.completed = self.completed + 1;
        round_metrics(w, baseline, elapsed_micros)
    }
}

/// The number of rounds in the sweep of `request`.
pub fn steps_of_len(request: &IntegrationRequest) -> (r: usize)
    requires
        request.wf(),
    ensures
        r == steps_of(*request).len(),
{
    if request.profile {
        request.max_workers
    } else {
        1
    }
}

/// In a profiling sweep the first round reported runs one worker and its
/// speedup is exactly one: it is its own baseline.
pub proof fn lemma_first_round_is_baseline(controller: SweepController, elapsed_micros: u64)
    requires
        controller.wf(),
        controller.request().profile,
        controller.completed() == 0,
    ensures
        controller.action_of() is Run ==> controller.action_of()->Run_0.worker_count == 1,
        controller.metrics_for(elapsed_micros).worker_count == 1,
        controller.metrics_for(elapsed_micros).speedup.num
            == controller.metrics_for(elapsed_micros).speedup.den,
        elapsed_micros > 0 ==> controller.metrics_for(elapsed_micros).speedup.is_one(),
{
}

/// A sweep reports one round per worker count it asks for: with profiling
/// the counts one to the maximum in order, else the maximum once; the round
/// reported after `k` others runs the `k`-th of them, counted from zero.
pub proof fn lemma_rounds_follow_steps(controller: SweepController)
    requires
        controller.wf(),
    ensures
        steps_of(controller.request()).len() == (if controller.request().profile {
            controller.request().max_workers as nat
        } else {
            1nat
        }),
        forall|i: int|
            0 <= i < steps_of(controller.request()).len() ==> #[trigger] steps_of(
                controller.request(),
            )[i] == (if controller.request().profile {
                i + 1
            } else {
                controller.request().max_workers as int
            }),
        !controller.finished() ==> controller.current_step() == steps_of(controller.request())[
            controller.completed() as int],
        controller.finished() <==> controller.action_of() is Done,
{
}

} // verus!
