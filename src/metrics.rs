use crate::config::Category;
use crate::flush::FlushError;
use vstd::prelude::*;

verus! {

/// The counters that the metrics endpoint shows.
#[derive(Debug, Clone)]
pub struct Metrics {
    pub events_flushed: usize,
    pub guardian_flushed: usize,
    pub last_flush_ts: i64,
    pub errors: usize,
    pub queue_events: usize,
    pub queue_guardian: usize,
}

pub open spec fn saturating_sum(a: int, b: int) -> int {
    if a + b <= usize::MAX {
        a + b
    } else {
        usize::MAX as int
    }
}

impl Default for Metrics {
    fn default() -> (m: Metrics)
        ensures
            m.events_flushed == 0,
            m.guardian_flushed == 0,
            m.last_flush_ts == 0,
            m.errors == 0,
            m.queue_events == 0,
            m.queue_guardian == 0,
    {
        Metrics {
            events_flushed: 0,
            guardian_flushed: 0,
            last_flush_ts: 0,
            errors: 0,
            queue_events: 0,
            queue_guardian: 0,
        }
    }
}

impl Metrics {
    /// Counts the result of one flush cycle of a category that finished at
    /// `ts`: records inserted go to the category's counter (join records have
    /// none), a failure to the error count. The counters saturate.
    pub fn record_flush(&mut self, category: Category, result: Result<usize, FlushError>, ts: i64)
        ensures
            final(self).queue_events == old(self).queue_events,
            final(self).queue_guardian == old(self).queue_guardian,
            match result {
                Ok(n) => {
                    &&& final(self).errors == old(self).errors
                    &&& final(self).events_flushed == if category == Category::Events {
                        saturating_sum(old(self).events_flushed as int, n as int)
                    } else {
                        old(self).events_flushed as int
                    }
                    &&& final(self).guardian_flushed == if category == Category::Guardian {
                        saturating_sum(old(self).guardian_flushed as int, n as int)
                    } else {
                        old(self).guardian_flushed as int
                    }
                    &&& final(self).last_flush_ts == if n > 0 {
                        ts
                    } else {
                        old(self).last_flush_ts
                    }
                },
                Err(_) => {
                    &&& final(self).errors == saturating_sum(old(self).errors as int, 1)
                    &&& final(self).events_flushed == old(self).events_flushed
                    &&& final(self).guardian_flushed == old(self).guardian_flushed
                    &&& final(self).last_flush_ts == old(self).last_flush_ts
                },
            },
    {
        match result {
            Ok(n) => {
                match category {
                    Category::Events => {
                        self.events_flushed = self.events_flushed.saturating_add(n);
                    },
                    Category::Guardian => {
                        self.guardian_flushed = self.guardian_flushed.saturating_add(n);
                    },
                    Category::Join => {},
                }
                if n > 0 {
                    self.last_flush_ts = ts;
                }
            },
            Err(_) => {
                self.errors = self.errors.saturating_add(1);
            },
        }
    }

    /// Records the queue depths read at the start of a cycle; a failed read counts as zero.
    pub fn record_backlog(&mut self, events: Option<usize>, guardian: Option<usize>)
        ensures
            final(self).queue_events == match events {
                Some(n) => n,
                None => 0,
            },
            final(self).queue_guardian == match guardian {
                Some(n) => n,
                None => 0,
            },
            final(self).events_flushed == old(self).events_flushed,
            final(self).guardian_flushed == old(self).guardian_flushed,
            final(self).errors == old(self).errors,
            final(self).last_flush_ts == old(self).last_flush_ts,
    {
        self.queue_events = match events {
            Some(n) => n,
            None => 0,
        };
        self.queue_guardian = match guardian {
            Some(n) => n,
            None => 0,
        };
    }
}

} // verus!
