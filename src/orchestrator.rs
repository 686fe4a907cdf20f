use crate::tuning::{bases_fit, capped_backlog, tune_cycle, tuned};
use vstd::prelude::*;

verus! {

/// What the caller is to do next in the main loop.
pub enum CycleAction {
    /// Read the depth of every source queue.
    MeasureBacklog,
    /// Run one flush cycle of every source queue, in parallel, with this batch size.
    FlushAll { batch_size: usize },
    /// Sleep this many seconds, unless a shutdown signal comes first.
    Sleep { secs: u64 },
    /// Run one last flush cycle of every source queue with this batch size.
    FinalFlush { batch_size: usize },
    /// Stop the process.
    Exit,
}

/// What came of the last action, or a shutdown signal.
pub enum CycleEvent {
    /// The depth of each queue; `None` where it could not be read.
    Measured(Vec<Option<usize>>),
    Flushed,
    Slept,
    /// A shutdown signal arrived; any flush in flight has completed.
    ShutdownRequested,
    FinalFlushed,
}

#[derive(Clone, Copy, Debug, PartialEq, Eq, Structural)]
pub enum LoopPhase {
    Measuring,
    Flushing,
    Sleeping,
    FinalFlushing,
    Stopped,
}

/// The main loop: measure the backlog, tune, flush every queue, sleep, and on
/// shutdown flush once more with the configured batch size and stop.
pub struct Orchestrator {
    pub base_batch: usize,
    pub base_interval: u64,
    pub phase: LoopPhase,
    /// The interval that the last tuning chose, in seconds.
    pub interval: u64,
}

impl Orchestrator {
    pub open spec fn wf(&self) -> bool {
        bases_fit(self.base_batch as int, self.base_interval as int)
    }

    /// Starts the loop with the configured base batch size and interval. The
    /// loop meets every backlog, so the bases must fit every band.
    pub fn new(base_batch: usize, base_interval: u64) -> (r: (Orchestrator, CycleAction))
        requires
            bases_fit(base_batch as int, base_interval as int),
        ensures
            r.0.wf(),
            r.0.base_batch == base_batch,
            r.0.base_interval == base_interval,
            r.0.phase == LoopPhase::Measuring,
            r.1 == CycleAction::MeasureBacklog,
    {
        (
            Orchestrator {
                base_batch,
                base_interval,
                phase: LoopPhase::Measuring,
                interval: base_interval,
            },
            CycleAction::MeasureBacklog,
        )
    }

    pub fn is_stopped(&self) -> (r: bool)
        ensures
            r == (self.phase == LoopPhase::Stopped),
    {
        self.phase == LoopPhase::Stopped
    }

    /// Takes the outcome of the last action, or a shutdown signal, and says
    /// what to do next. A shutdown leads to exactly one final flush; whatever
    /// event follows it ends the loop, and once stopped the loop stays stopped.
    pub fn step(&mut self, event: CycleEvent) -> (a: CycleAction)
        requires
            old(self).wf(),
        ensures
            final(self).wf(),
            final(self).base_batch == old(self).base_batch,
            final(self).base_interval == old(self).base_interval,
            match (old(self).phase, event) {
                (LoopPhase::Stopped, _) => a == CycleAction::Exit && final(self).phase
                    == LoopPhase::Stopped,
                (LoopPhase::FinalFlushing, _) => a == CycleAction::Exit && final(self).phase
                    == LoopPhase::Stopped,
                (_, CycleEvent::ShutdownRequested) => a == (CycleAction::FinalFlush {
                    batch_size: old(self).base_batch,
                }) && final(self).phase == LoopPhase::FinalFlushing,
                (LoopPhase::Measuring, CycleEvent::Measured(lengths)) => {
                    let t = tuned(
                        capped_backlog(lengths@),
                        old(self).base_batch as int,
                        old(self).base_interval as int,
                    );
                    &&& a matches CycleAction::FlushAll { batch_size }
                    &&& batch_size as int == t.0
                    &&& final(self).interval as int == t.1
                    &&& final(self).phase == LoopPhase::Flushing
                },
                (LoopPhase::Flushing, CycleEvent::Flushed) => a == (CycleAction::Sleep {
                    secs: old(self).interval,
                }) && final(self).phase == LoopPhase::Sleeping,
                _ => a == CycleAction::MeasureBacklog && final(self).phase
                    == LoopPhase::Measuring,
            },
    {
        match (self.phase, event) {
            (LoopPhase::Stopped, _) => CycleAction::Exit,
            (LoopPhase::FinalFlushing, _) => {
                self.phase = LoopPhase::Stopped;
                CycleAction::Exit
            },
            (_, CycleEvent::ShutdownRequested) => {
                self.phase = LoopPhase::FinalFlushing;
                CycleAction::FinalFlush { batch_size: self.base_batch }
            },
            (LoopPhase::Measuring, CycleEvent::Measured(lengths)) => {
                let (batch_size, interval) = tune_cycle(&lengths, self.base_batch, self.base_interval);
                self.interval = interval;
                self.phase = LoopPhase::Flushing;
                CycleAction::FlushAll { batch_size }
            },
            (LoopPhase::Flushing, CycleEvent::Flushed) => {
                self.phase = LoopPhase::Sleeping;
                CycleAction::Sleep { secs: self.interval }
            },
            _ => {
                self.phase = LoopPhase::Measuring;
                CycleAction::MeasureBacklog
            },
        }
    }
}

} // verus!
