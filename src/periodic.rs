use vstd::prelude::*;
use crate::endpoints::ReaderPlan;
use crate::forwarder::{taken_post, Forward, Forwarder, TakenSample};
use crate::sample::{DDSRawSample, SampleLedger};

verus! {

/// What a polling task does at a tick.
#[derive(Clone, Copy, Debug, PartialEq, Eq, Structural)]
pub enum TickAction {
    /// Drain the reader now and forward what it holds; the check is made
    /// after each period's sleep, right before the reader is used.
    Drain,
    /// Stop for good: the reader is gone or its handle now names another entity.
    Stop,
}

/// A task that polls one reader once per period. Entity handles are reused
/// after deletion, so it trusts the reader only while the reader's instance
/// handle is the one read when the task started.
#[derive(Clone, Copy, Debug, PartialEq, Eq, Structural)]
pub struct PeriodicTask {
    pub reader: i32,
    pub original_handle: u64,
    pub stopped: bool,
}

/// The task and its action after a tick at which the reader's instance
/// handle read as `current` (`None` where it could not be read).
pub open spec fn spec_tick(t: PeriodicTask, current: Option<u64>) -> (PeriodicTask, TickAction) {
    if !t.stopped && current == Some(t.original_handle) {
        (t, TickAction::Drain)
    } else {
        (PeriodicTask { stopped: true, ..t }, TickAction::Stop)
    }
}

/// The actions of a task over consecutive ticks.
pub open spec fn spec_actions(t: PeriodicTask, obs: Seq<Option<u64>>) -> Seq<TickAction>
    decreases obs.len(),
{
    if obs.len() == 0 {
        seq![]
    } else {
        let (t2, a) = spec_tick(t, obs[0]);
        seq![a] + spec_actions(t2, obs.drop_first())
    }
}

impl PeriodicTask {
    /// A task for a reader whose instance handle read as `original_handle`.
    pub fn new(reader: i32, original_handle: u64) -> (r: PeriodicTask)
        ensures
            r == (PeriodicTask { reader, original_handle, stopped: false }),
    {
        PeriodicTask { reader, original_handle, stopped: false }
    }

    /// One tick, after the period's sleep and before any use of the reader:
    /// drains only while the reader still has its original handle.
    pub fn on_tick(&mut self, current: Option<u64>) -> (r: TickAction)
        ensures
            (*final(self), r) == spec_tick(*old(self), current),
    {
        let same = match current {
            Some(h) => h == self.original_handle,
            None => false,
        };
        if !self.stopped && same {
            TickAction::Drain
        } else {
            self.stopped = true;
            TickAction::Stop
        }
    }
}

/// A polling reader's task together with its forwarder: samples can be
/// taken only while the task has not stopped.
#[derive(Clone, Copy, Debug)]
pub struct PeriodicForwarder {
    pub task: PeriodicTask,
    pub forwarder: Forwarder,
    pub period_ns: u64,
}

impl PeriodicForwarder {
    /// The task for a reader created from `plan`, whose instance handle read
    /// as `original_handle`; a listening reader has none.
    pub fn start(plan: &ReaderPlan, reader: i32, original_handle: u64) -> (r: Option<
        PeriodicForwarder,
    >)
        ensures
            r is None <==> plan.listener,
            r matches Some(p) ==> p.task == (PeriodicTask { reader, original_handle, stopped: false })
                && p.forwarder.ledger == SampleLedger::new_spec() && p.forwarder.published == 0
                && p.forwarder.publish_failures == 0 && p.forwarder.skipped == 0 && p.period_ns
                == plan.period_ns,
    {
        if plan.listener {
            None
        } else {
            Some(
                PeriodicForwarder {
                    task: PeriodicTask::new(reader, original_handle),
                    forwarder: Forwarder::new(),
                    period_ns: plan.period_ns,
                },
            )
        }
    }

    /// One tick; see `PeriodicTask::on_tick`.
    pub fn on_tick(&mut self, current: Option<u64>) -> (r: TickAction)
        ensures
            (final(self).task, r) == spec_tick(old(self).task, current),
            final(self).forwarder == old(self).forwarder,
            final(self).period_ns == old(self).period_ns,
    {
        self.task.on_tick(current)
    }

    /// Takes one sample from the reader; only a task that has not stopped may.
    pub fn on_taken(&mut self, taken: TakenSample) -> (r: Forward)
        requires
            !old(self).task.stopped,
        ensures
            taken_post(old(self).forwarder, final(self).forwarder, taken, r),
            final(self).task == old(self).task,
            final(self).period_ns == old(self).period_ns,
    {
        self.forwarder.on_taken(taken)
    }

    /// Hands back a published sample; `ok` says whether publishing succeeded.
    pub fn on_published(&mut self, sample: DDSRawSample, ok: bool)
        requires
            old(self).forwarder.ledger.outstanding > 0,
        ensures
            final(self).forwarder == old(self).forwarder.spec_on_published(ok),
            final(self).task == old(self).task,
            final(self).period_ns == old(self).period_ns,
    {
        self.forwarder.on_published(sample, ok)
    }
}

/// Once a tick has seen the reader's handle gone or recycled, that tick and
/// every later one stops, so no stale reader is drained: with `on_taken`
/// open only to a task that has not stopped, nothing is taken or published
/// from it again.
pub proof fn lemma_stops_after_recycle(t: PeriodicTask, obs: Seq<Option<u64>>, i: int)
    requires
        0 <= i < obs.len(),
        obs[i] != Some(t.original_handle),
    ensures
        spec_actions(t, obs).len() == obs.len(),
        forall|j: int| i <= j < obs.len() ==> #[trigger] spec_actions(t, obs)[j] == TickAction::Stop,
    decreases obs.len(),
{
    lemma_actions_len(t, obs);
    let (t2, a) = spec_tick(t, obs[0]);
    if i == 0 {
        assert(t2.stopped);
        lemma_stopped_stays(t2, obs.drop_first());
        assert forall|j: int| i <= j < obs.len() implies #[trigger] spec_actions(t, obs)[j]
            == TickAction::Stop by {
            if j > 0 {
                assert(spec_actions(t, obs)[j] == spec_actions(t2, obs.drop_first())[j - 1]);
            }
        }
    } else {
        assert(t2.original_handle == t.original_handle);
        assert(obs.drop_first()[i - 1] == obs[i]);
        lemma_stops_after_recycle(t2, obs.drop_first(), i - 1);
        assert forall|j: int| i <= j < obs.len() implies #[trigger] spec_actions(t, obs)[j]
            == TickAction::Stop by {
            assert(spec_actions(t, obs)[j] == spec_actions(t2, obs.drop_first())[j - 1]);
        }
    }
}

proof fn lemma_actions_len(t: PeriodicTask, obs: Seq<Option<u64>>)
    ensures
        spec_actions(t, obs).len() == obs.len(),
    decreases obs.len(),
{
    if obs.len() > 0 {
        let (t2, a) = spec_tick(t, obs[0]);
        lemma_actions_len(t2, obs.drop_first());
    }
}

proof fn lemma_stopped_stays(t: PeriodicTask, obs: Seq<Option<u64>>)
    requires
        t.stopped,
    ensures
        spec_actions(t, obs).len() == obs.len(),
        forall|j: int| 0 <= j < obs.len() ==> #[trigger] spec_actions(t, obs)[j] == TickAction::Stop,
    decreases obs.len(),
{
    lemma_actions_len(t, obs);
    if obs.len() > 0 {
        let (t2, a) = spec_tick(t, obs[0]);
        lemma_stopped_stays(t2, obs.drop_first());
        assert forall|j: int| 0 <= j < obs.len() implies #[trigger] spec_actions(t, obs)[j]
            == TickAction::Stop by {
            if j > 0 {
                assert(spec_actions(t, obs)[j] == spec_actions(t2, obs.drop_first())[j - 1]);
            }
        }
    }
}

} // verus!
