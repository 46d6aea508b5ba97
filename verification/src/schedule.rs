//! The polling loop, as a machine that is told what happened and says what
//! to do next.
//!
//! One worker runs the loop for as long as the application lives. It polls
//! the backend, hands every raw event to the machine, and delivers the
//! records that the machine gives back, one at a time and in their order.
//! The machine decides when the loop ends: when a stop was asked for and
//! nothing is left to deliver, or, under the policy that ends the loop on a
//! failed delivery, when the sink refused a record.

use vstd::prelude::*;
use crate::backend::RawEvent;
use crate::event::{views, ControllerState, ControllerStateView, Emission, EmissionView};
use crate::normalize::{
    kept_after, normalized, remembered, AxisDirectionState, Config, Normalizer,
};

verus! {

/// What becomes of the loop when the sink refuses a record.
#[derive(Clone, Copy, Debug, PartialEq, Eq, Structural)]
pub enum SinkPolicy {
    /// The failure is the caller's to log; the loop goes on with the next
    /// record.
    Continue,
    /// The loop ends.
    Terminate,
}

/// How the delivery of a record ended.
#[derive(Clone, Copy, Debug, PartialEq, Eq, Structural)]
pub enum Delivery {
    Delivered,
    Failed,
}

/// Why the loop ended.
#[derive(Clone, Copy, Debug, PartialEq, Eq, Structural)]
pub enum StopReason {
    /// A stop was asked for.
    Requested,
    /// The sink refused a record, under the policy that ends the loop.
    SinkFailed,
}

/// Whether the loop is running.
#[derive(Clone, Copy, Debug, PartialEq, Eq, Structural)]
pub enum Status {
    Running,
    Stopped(StopReason),
}

/// What the worker does next.
#[derive(Debug)]
pub enum Action {
    /// Wait for the next raw event of the backend and hand it over.
    Poll,
    /// Deliver this record to the sink and report how it went.
    Deliver(Emission),
    /// Leave the loop.
    Exit(StopReason),
}

/// The mathematical content of an [`Action`].
pub enum ActionView {
    Poll,
    Deliver(EmissionView),
    Exit(StopReason),
}

impl View for Action {
    type V = ActionView;

    open spec fn view(&self) -> ActionView {
        match self {
            Action::Poll => ActionView::Poll,
            Action::Deliver(emission) => ActionView::Deliver(emission@),
            Action::Exit(reason) => ActionView::Exit(*reason),
        }
    }
}

/// The state of the polling loop.
pub struct Worker {
    normalizer: Normalizer,
    policy: SinkPolicy,
    pending: Vec<Emission>,
    status: Status,
}

/// The mathematical content of a [`Worker`].
pub struct WorkerView {
    /// The choices that its normalizer was made with.
    pub config: Config,
    /// What becomes of the loop when the sink refuses a record.
    pub policy: SinkPolicy,
    /// The pad states that its normalizer remembers, by controller id.
    pub kept: Map<u64, AxisDirectionState>,
    /// The records that wait for delivery, the next one first.
    pub pending: Seq<EmissionView>,
    pub status: Status,
}

impl View for Worker {
    type V = WorkerView;

    closed spec fn view(&self) -> WorkerView {
        WorkerView {
            config: self.normalizer.config(),
            policy: self.policy,
            kept: self.normalizer.kept(),
            pending: views(self.pending@),
            status: self.status,
        }
    }
}

/// The action that the loop takes next, and the state it is then in.
///
/// A loop that has ended stays ended. A running loop delivers what is
/// pending, the oldest record first. With nothing pending it ends if a stop
/// was asked for, and polls otherwise: a stop is looked at once in every
/// cycle, after the records of the last raw event are out.
pub open spec fn step(worker: WorkerView, stop_requested: bool) -> (ActionView, WorkerView) {
    match worker.status {
        Status::Stopped(reason) => (ActionView::Exit(reason), worker),
        Status::Running => {
            if worker.pending.len() > 0 {
                (
                    ActionView::Deliver(worker.pending[0]),
                    WorkerView { pending: worker.pending.drop_first(), ..worker },
                )
            } else if stop_requested {
                (
                    ActionView::Exit(StopReason::Requested),
                    WorkerView { status: Status::Stopped(StopReason::Requested), ..worker },
                )
            } else {
                (ActionView::Poll, worker)
            }
        },
    }
}

/// The state after a raw event of the controller `id` was handed over under
/// the snapshot `state`: a running loop queues the records of the event
/// behind what is pending and notes the pad state; a loop that has ended
/// takes nothing in.
pub open spec fn accepted(
    worker: WorkerView,
    id: u64,
    state: ControllerStateView,
    event: RawEvent,
) -> WorkerView {
    match worker.status {
        Status::Stopped(_) => worker,
        Status::Running => WorkerView {
            kept: kept_after(worker.kept, id, event),
            pending: worker.pending + normalized(
                worker.config,
                remembered(worker.kept, id),
                state,
                event,
            ),
            ..worker
        },
    }
}

/// The state after a delivery was reported: a failed delivery ends a
/// running loop under the policy that says so, and nothing else changes
/// anything.
pub open spec fn reported(worker: WorkerView, outcome: Delivery) -> WorkerView {
    if worker.status == Status::Running && outcome == Delivery::Failed && worker.policy
        == SinkPolicy::Terminate {
        WorkerView { status: Status::Stopped(StopReason::SinkFailed), ..worker }
    } else {
        worker
    }
}

impl Worker {
    /// A running loop with nothing pending and no controller remembered.
    pub fn new(config: Config, policy: SinkPolicy) -> (worker: Worker)
        ensures
            worker@ == (WorkerView {
                config,
                policy,
                kept: Map::empty(),
                pending: Seq::empty(),
                status: Status::Running,
            }),
    {
        let worker = Worker {
            normalizer: Normalizer::new(config),
            policy,
            pending: Vec::new(),
            status: Status::Running,
        };
        proof {
            assert(views(worker.pending@) =~= Seq::empty());
        }
        worker
    }

    /// Whether the loop is running, and why not.
    pub fn status(&self) -> (status: Status)
        ensures
            status == self@.status,
    {
        self.status
    }

    /// The number of records that wait for delivery.
    pub fn pending_count(&self) -> (count: usize)
        ensures
            count == self@.pending.len(),
    {
        self.pending.len()
    }

    /// The pad state of a controller, as the loop remembers it.
    pub fn directions(&self, id: u64) -> (state: AxisDirectionState)
        ensures
            state == remembered(self@.kept, id),
    {
        self.normalizer.directions(id)
    }

    /// Says what the worker does next. `stop_requested` tells whether a stop
    /// was asked for since the loop began.
    pub fn next_action(&mut self, stop_requested: bool) -> (action: Action)
        ensures
            action@ == step(old(self)@, stop_requested).0,
            final(self)@ == step(old(self)@, stop_requested).1,
    {
        match self.status {
            Status::Stopped(reason) => Action::Exit(reason),
            Status::Running => {
                if self.pending.len() > 0 {
                    let ghost before = self.pending@;
                    let emission = self.pending.remove(0);
                    proof {
                        assert(views(self.pending@) =~= views(before).drop_first());
                    }
                    Action::Deliver(emission)
                } else if stop_requested {
                    self.status = Status::Stopped(StopReason::Requested);
                    Action::Exit(StopReason::Requested)
                } else {
                    Action::Poll
                }
            },
        }
    }

    /// Takes in one raw event of the controller `id`, reported under the
    /// snapshot `state`.
    pub fn accept(&mut self, id: u64, state: ControllerState, event: RawEvent)
        ensures
            final(self)@ == accepted(old(self)@, id, state@, event),
    {
        match self.status {
            Status::Stopped(_) => {},
            Status::Running => {
                self.normalizer.process(id, state, event, &mut self.pending);
            },
        }
    }

    /// Takes in how the delivery of a record went.
    pub fn report(&mut self, outcome: Delivery)
        ensures
            final(self)@ == reported(old(self)@, outcome),
    {
        match (self.status, outcome, self.policy) {
            (Status::Running, Delivery::Failed, SinkPolicy::Terminate) => {
                self.status = Status::Stopped(StopReason::SinkFailed);
            },
            _ => {},
        }
    }
}

/// The state after `n` actions were asked for in a row, each with the same
/// answer to whether a stop was asked for.
pub open spec fn after_steps(worker: WorkerView, stop_requested: bool, n: nat) -> WorkerView
    decreases n,
{
    if n == 0 {
        worker
    } else {
        after_steps(step(worker, stop_requested).1, stop_requested, (n - 1) as nat)
    }
}

/// What is pending goes out whole and in order: a running loop answers the
/// first requests for an action with the pending records, one by one from
/// the oldest, whether or not a stop was asked for, and changes nothing
/// else on the way. Only then does it poll, or end if a stop was asked for.
pub proof fn lemma_pending_goes_out_in_order(worker: WorkerView, stop_requested: bool, n: nat)
    requires
        worker.status == Status::Running,
        n <= worker.pending.len(),
    ensures
        after_steps(worker, stop_requested, n) == (WorkerView {
            pending: worker.pending.skip(n as int),
            ..worker
        }),
        n < worker.pending.len() ==> step(after_steps(worker, stop_requested, n), stop_requested).0
            == ActionView::Deliver(worker.pending[n as int]),
        n == worker.pending.len() ==> step(after_steps(worker, stop_requested, n), stop_requested).0
            == (if stop_requested {
            ActionView::Exit(StopReason::Requested)
        } else {
            ActionView::Poll
        }),
    decreases n,
{
    if n == 0 {
        assert(worker.pending.skip(0) =~= worker.pending);
    } else {
        let next = step(worker, stop_requested).1;
        assert(next.pending =~= worker.pending.skip(1));
        lemma_pending_goes_out_in_order(next, stop_requested, (n - 1) as nat);
        assert(next.pending.skip(n - 1) =~= worker.pending.skip(n as int));
    }
}

/// Handing a raw event over adds at most two records to what is pending, so
/// a worker that polls only when it is told to never has more than two
/// records waiting.
pub proof fn lemma_queue_stays_short(
    worker: WorkerView,
    id: u64,
    state: ControllerStateView,
    event: RawEvent,
)
    ensures
        accepted(worker, id, state, event).pending.len() <= worker.pending.len() + 2,
        step(worker, false).0 == ActionView::Poll ==> accepted(
            worker,
            id,
            state,
            event,
        ).pending.len() <= 2,
{
}

/// A failed delivery never ends the loop under the policy that goes on, and
/// a delivery that went through never ends it under any policy.
pub proof fn lemma_loop_survives_delivery(worker: WorkerView, outcome: Delivery)
    requires
        worker.policy == SinkPolicy::Continue || outcome == Delivery::Delivered,
    ensures
        reported(worker, outcome) == worker,
{
}

} // verus!
