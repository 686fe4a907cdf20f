use crate::codec::{
    all_recoverable, decode_batch, decoded_records, entry_views, recoverable, round_trips,
    serializable_records, store_batch, stored_records,
};
use crate::config::Category;
use crate::dead_letter::{bound_for, dead_letter_entries, decoded_dead_letters, encode_dead_letters};
use crate::retry::{RetryPolicy, RetryState};
use bson::Document;
use vstd::prelude::*;

verus! {

/// Why a flush cycle did not insert its batch, with the underlying error's text.
#[derive(Clone, Debug, PartialEq, Eq)]
pub enum FlushError {
    /// The queue could not be read or trimmed.
    Transport(String),
    /// Every insert attempt failed, the last with this error; the batch went
    /// to the dead-letter queue.
    InsertFailed(String),
    /// An event came that the cycle was not waiting for.
    OutOfOrder,
}

/// What the caller is to do next for one flush cycle of one queue.
pub enum FlushAction {
    /// Read the entries `0..=stop` from the head of the source queue.
    ReadRange { stop: usize },
    /// Remove the first `count` entries of the source queue.
    Trim { count: usize },
    /// Insert the cycle's records in one bulk call.
    Insert,
    /// Wait this many milliseconds, then insert again.
    Wait { delay_ms: u64 },
    /// Push each envelope onto the dead-letter queue, ignoring failures.
    DeadLetter { entries: Vec<String> },
    /// The cycle is over: the number of records inserted, or why none were.
    Done { result: Result<usize, FlushError> },
}

/// What came of the last action.
pub enum FlushEvent {
    Ranged(Vec<String>),
    RangeFailed(String),
    /// The entries are trimmed; `now_ms` is the time, in milliseconds since
    /// the epoch, that the stored records carry.
    Trimmed { now_ms: i64 },
    TrimFailed(String),
    Inserted,
    InsertFailed(String),
    Waited,
    DeadLettered,
}

#[derive(Clone, Copy, Debug, PartialEq, Eq, Structural)]
pub enum FlushPhase {
    Reading,
    Trimming,
    Inserting,
    Waiting,
    DeadLettering,
    Finished,
}

/// One flush cycle of one queue: drain, trim, decode, insert with retries,
/// and on exhaustion hand the batch to the dead-letter queue.
pub struct FlushCycle {
    /// Where the records go, and where their dead-letter entries are bound.
    pub category: Category,
    pub batch_size: usize,
    pub policy: RetryPolicy,
    pub phase: FlushPhase,
    /// The entries read from the queue.
    pub drained: Vec<String>,
    /// The stored forms of the decoded entries, to insert.
    pub records: Vec<Document>,
    /// The time stamp that the stored forms carry.
    pub stamped_at: i64,
    pub retry: RetryState,
    /// The error of the last failed insert.
    pub last_error: String,
}

impl FlushCycle {
    pub open spec fn wf(&self) -> bool {
        &&& self.policy.wf()
        &&& (self.phase == FlushPhase::Inserting || self.phase == FlushPhase::Waiting)
            ==> self.retry.wf(self.policy)
        &&& forall|k: int|
            0 <= k < self.records.len() ==> round_trips(#[trigger] self.records@[k])
    }

    /// Starts a cycle; the first action reads up to `batch_size` entries. A
    /// batch of size zero is empty: that cycle ends at once, having read and
    /// trimmed nothing.
    pub fn new(category: Category, batch_size: usize, policy: RetryPolicy) -> (r: (FlushCycle, FlushAction))
        requires
            policy.wf(),
        ensures
            r.0.wf(),
            r.0.category == category,
            r.0.batch_size == batch_size,
            r.0.policy == policy,
            batch_size == 0 ==> r.0.phase == FlushPhase::Finished && r.1 == (FlushAction::Done {
                result: Ok(0),
            }),
            batch_size > 0 ==> r.0.phase == FlushPhase::Reading && r.1 == (FlushAction::ReadRange {
                stop: (batch_size - 1) as usize,
            }),
    {
        let empty = batch_size == 0;
        let cycle = FlushCycle {
            category,
            batch_size,
            policy,
            phase: if empty {
                FlushPhase::Finished
            } else {
                FlushPhase::Reading
            },
            drained: Vec::new(),
            records: Vec::new(),
            stamped_at: 0,
            retry: policy.start(),
            last_error: String::new(),
        };
        if empty {
            (cycle, FlushAction::Done { result: Ok(0) })
        } else {
            (cycle, FlushAction::ReadRange { stop: batch_size - 1 })
        }
    }

    pub fn is_finished(&self) -> (r: bool)
        ensures
            r == (self.phase == FlushPhase::Finished),
    {
        self.phase == FlushPhase::Finished
    }

    fn finish(&mut self, result: Result<usize, FlushError>) -> (a: FlushAction)
        requires
            old(self).wf(),
        ensures
            final(self).wf(),
            final(self).phase == FlushPhase::Finished,
            final(self).batch_size == old(self).batch_size,
            final(self).policy == old(self).policy,
            final(self).category == old(self).category,
            final(self).records == old(self).records,
            final(self).stamped_at == old(self).stamped_at,
            a == (FlushAction::Done { result }),
    {
        self.phase = FlushPhase::Finished;
        FlushAction::Done { result }
    }

    /// Takes the outcome of the last action and says what to do next.
    pub fn step(&mut self, event: FlushEvent) -> (a: FlushAction)
        requires
            old(self).wf(),
        ensures
            final(self).wf(),
            final(self).category == old(self).category,
            final(self).batch_size == old(self).batch_size,
            final(self).policy == old(self).policy,
            match (old(self).phase, event) {
                (FlushPhase::Reading, FlushEvent::Ranged(entries)) => if entries.len() == 0 {
                    a == (FlushAction::Done { result: Ok(0) }) && final(self).phase
                        == FlushPhase::Finished
                } else {
                    a == (FlushAction::Trim { count: entries.len() }) && final(self).phase
                        == FlushPhase::Trimming && final(self).drained == entries
                },
                (FlushPhase::Trimming, FlushEvent::Trimmed { now_ms }) => {
                    let decoded = decoded_records(entry_views(old(self).drained@));
                    &&& final(self).stamped_at == now_ms
                    &&& final(self).records@ == stored_records(decoded, now_ms)
                    &&& if final(self).records.len() == 0 {
                        a == (FlushAction::Done { result: Ok(0) }) && final(self).phase
                            == FlushPhase::Finished
                    } else {
                        a == FlushAction::Insert && final(self).phase == FlushPhase::Inserting
                            && final(self).retry.failures == 0 && final(self).retry.next_delay_ms
                            == old(self).policy.initial_delay_ms
                    }
                },
                (FlushPhase::Inserting, FlushEvent::Inserted) => a == (FlushAction::Done {
                    result: Ok(old(self).records.len()),
                }) && final(self).phase == FlushPhase::Finished,
                (FlushPhase::Inserting, FlushEvent::InsertFailed(e)) => {
                    let records = old(self).records@;
                    &&& final(self).records == old(self).records
                    &&& final(self).last_error == e
                    &&& final(self).retry.failures == old(self).retry.failures + 1
                    &&& if final(self).retry.failures >= old(self).policy.max_attempts {
                        &&& final(self).phase == FlushPhase::DeadLettering
                        &&& a matches FlushAction::DeadLetter { entries }
                        &&& entries.len() == serializable_records(records).len()
                        &&& entry_views(entries@) == dead_letter_entries(old(self).category, records)
                        &&& decoded_dead_letters(entry_views(entries@)) == bound_for(
                            old(self).category,
                            serializable_records(records),
                        )
                    } else {
                        &&& final(self).phase == FlushPhase::Waiting
                        &&& a == (FlushAction::Wait { delay_ms: old(self).retry.next_delay_ms })
                    }
                },
                (FlushPhase::Waiting, FlushEvent::Waited) => a == FlushAction::Insert
                    && final(self).phase == FlushPhase::Inserting && final(self).records
                    == old(self).records && final(self).retry == old(self).retry
                    && final(self).last_error == old(self).last_error,
                (FlushPhase::DeadLettering, FlushEvent::DeadLettered) => a == (FlushAction::Done {
                    result: Err(FlushError::InsertFailed(old(self).last_error)),
                }) && final(self).phase == FlushPhase::Finished,
                (FlushPhase::Reading, FlushEvent::RangeFailed(e)) | (
                    FlushPhase::Trimming,
                    FlushEvent::TrimFailed(e),
                ) => a == (FlushAction::Done { result: Err(FlushError::Transport(e)) })
                    && final(self).phase == FlushPhase::Finished,
                _ => a == (FlushAction::Done { result: Err(FlushError::OutOfOrder) })
                    && final(self).phase == FlushPhase::Finished,
            },
    {
        match (self.phase, event) {
            (FlushPhase::Reading, FlushEvent::Ranged(entries)) => {
                if entries.len() == 0 {
                    self.finish(Ok(0))
                } else {
                    let count = entries.len();
                    self.drained = entries;
                    self.phase = FlushPhase::Trimming;
                    FlushAction::Trim { count }
                }
            },
            (FlushPhase::Trimming, FlushEvent::Trimmed { now_ms }) => {
                let decoded = decode_batch(&self.drained);
                self.records = store_batch(&decoded, now_ms);
                self.stamped_at = now_ms;
                if self.records.len() == 0 {
                    self.finish(Ok(0))
                } else {
                    self.retry = self.policy.start();
                    self.phase = FlushPhase::Inserting;
                    FlushAction::Insert
                }
            },
            (FlushPhase::Inserting, FlushEvent::Inserted) => {
                let n = self.records.len();
                self.finish(Ok(n))
            },
            (FlushPhase::Inserting, FlushEvent::InsertFailed(e)) => {
                self.last_error = e;
                match self.retry.on_failure(&self.policy) {
                    Some(delay_ms) => {
                        self.phase = FlushPhase::Waiting;
                        FlushAction::Wait { delay_ms }
                    },
                    None => {
                        proof {
                            assert forall|k: int| 0 <= k < self.records@.len() implies recoverable(
                                #[trigger] self.records@[k],
                            ) by {
                                assert(round_trips(self.records@[k]));
                            }
                            assert(all_recoverable(self.records@));
                        }
                        let entries = encode_dead_letters(self.category, &self.records);
                        self.phase = FlushPhase::DeadLettering;
                        FlushAction::DeadLetter { entries }
                    },
                }
            },
            (FlushPhase::Waiting, FlushEvent::Waited) => {
                self.phase = FlushPhase::Inserting;
                FlushAction::Insert
            },
            (FlushPhase::DeadLettering, FlushEvent::DeadLettered) => {
                let e = self.last_error.clone();
                self.finish(Err(FlushError::InsertFailed(e)))
            },
            (FlushPhase::Reading, FlushEvent::RangeFailed(e)) => {
                self.finish(Err(FlushError::Transport(e)))
            },
            (FlushPhase::Trimming, FlushEvent::TrimFailed(e)) => {
                self.finish(Err(FlushError::Transport(e)))
            },
            _ => self.finish(Err(FlushError::OutOfOrder)),
        }
    }
}

} // verus!
