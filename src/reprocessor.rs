use crate::codec::{all_recoverable, bson_parsed, entry_views, recoverable, serializable_records};
use crate::config::Category;
use crate::dead_letter::{
    bound_for, dead_letter_decoded, dead_letter_entries, dead_letter_round, decode_dead_letter,
    decoded_dead_letters, encode_dead_letters, records_for,
};
use bson::Document;
use vstd::prelude::*;

verus! {

/// How long the reprocessor waits when the dead-letter queue is empty or cannot be reached.
pub const IDLE_SLEEP_MS: u64 = 5000;

/// What the caller is to do next for the dead-letter queue.
pub enum ReprocessAction {
    /// Read the entries `0..=stop` from the head of the dead-letter queue.
    ReadRange { stop: usize },
    /// Remove the first `count` entries of the dead-letter queue.
    Trim { count: usize },
    /// Insert the records bound for `category` (see `group`) in one bulk call
    /// into that category's collection.
    Insert { category: Category },
    /// Push each entry back onto the dead-letter queue, ignoring failures.
    PushBack { entries: Vec<String> },
    /// Sleep this many milliseconds.
    Sleep { ms: u64 },
}

/// What came of the last action.
pub enum ReprocessEvent {
    Ranged(Vec<String>),
    RangeFailed,
    Trimmed,
    TrimFailed,
    Inserted,
    InsertFailed,
    PushedBack,
    Slept,
}

#[derive(Clone, Copy, Debug, PartialEq, Eq, Structural)]
pub enum ReprocessPhase {
    Reading,
    Trimming,
    Inserting,
    PushingBack,
    Sleeping,
}

pub open spec fn index_of(c: Category) -> int {
    match c {
        Category::Events => 0,
        Category::Guardian => 1,
        Category::Join => 2,
    }
}

/// The dead-letter reprocessor: an endless loop of drain, trim and decode,
/// then one insert per destination, pushing a destination's records back
/// when their insert fails.
pub struct DeadLetterReprocessor {
    pub batch_size: usize,
    pub phase: ReprocessPhase,
    pub drained: Vec<String>,
    pub events: Vec<Document>,
    pub guardian: Vec<Document>,
    pub join: Vec<Document>,
    /// The destination being inserted or pushed back.
    pub current: Category,
}

impl DeadLetterReprocessor {
    /// The drained records bound for `c`.
    pub open spec fn group_of(&self, c: Category) -> Seq<Document> {
        match c {
            Category::Events => self.events@,
            Category::Guardian => self.guardian@,
            Category::Join => self.join@,
        }
    }

    /// The first destination, from position `i` on, that has records.
    pub open spec fn next_group(&self, i: int) -> Option<Category> {
        if i <= 0 && self.events.len() > 0 {
            Some(Category::Events)
        } else if i <= 1 && self.guardian.len() > 0 {
            Some(Category::Guardian)
        } else if i <= 2 && self.join.len() > 0 {
            Some(Category::Join)
        } else {
            None
        }
    }

    pub open spec fn wf(&self) -> bool {
        &&& self.batch_size >= 1
        &&& all_recoverable(self.events@)
        &&& all_recoverable(self.guardian@)
        &&& all_recoverable(self.join@)
    }

    pub open spec fn same_groups(&self, other: &Self) -> bool {
        &&& self.events@ == other.events@
        &&& self.guardian@ == other.guardian@
        &&& self.join@ == other.join@
    }

    /// Starts the loop; the first action reads up to `batch_size` entries.
    pub fn new(batch_size: usize) -> (r: (DeadLetterReprocessor, ReprocessAction))
        requires
            batch_size >= 1,
        ensures
            r.0.wf(),
            r.0.batch_size == batch_size,
            r.0.phase == ReprocessPhase::Reading,
            r.1 == (ReprocessAction::ReadRange { stop: (batch_size - 1) as usize }),
    {
        (
            DeadLetterReprocessor {
                batch_size,
                phase: ReprocessPhase::Reading,
                drained: Vec::new(),
                events: Vec::new(),
                guardian: Vec::new(),
                join: Vec::new(),
                current: Category::Events,
            },
            ReprocessAction::ReadRange { stop: batch_size - 1 },
        )
    }

    /// The records bound for `category`.
    pub fn group(&self, category: Category) -> (r: &Vec<Document>)
        ensures
            r@ == self.group_of(category),
    {
        match category {
            Category::Events => &self.events,
            Category::Guardian => &self.guardian,
            Category::Join => &self.join,
        }
    }

    fn read_next(&mut self) -> (a: ReprocessAction)
        requires
            old(self).wf(),
        ensures
            final(self).wf(),
            final(self).batch_size == old(self).batch_size,
            final(self).same_groups(old(self)),
            final(self).phase == ReprocessPhase::Reading,
            a == (ReprocessAction::ReadRange { stop: (old(self).batch_size - 1) as usize }),
    {
        self.phase = ReprocessPhase::Reading;
        ReprocessAction::ReadRange { stop: self.batch_size - 1 }
    }

    fn idle(&mut self) -> (a: ReprocessAction)
        requires
            old(self).wf(),
        ensures
            final(self).wf(),
            final(self).batch_size == old(self).batch_size,
            final(self).same_groups(old(self)),
            final(self).phase == ReprocessPhase::Sleeping,
            a == (ReprocessAction::Sleep { ms: IDLE_SLEEP_MS }),
    {
        self.phase = ReprocessPhase::Sleeping;
        ReprocessAction::Sleep { ms: IDLE_SLEEP_MS }
    }

    /// Moves to the next destination, from position `from` on, that has
    /// records; when none is left, back to reading.
    fn advance(&mut self, from: usize) -> (a: ReprocessAction)
        requires
            old(self).wf(),
            from <= 3,
        ensures
            final(self).wf(),
            final(self).batch_size == old(self).batch_size,
            final(self).same_groups(old(self)),
            match old(self).next_group(from as int) {
                Some(c) => a == (ReprocessAction::Insert { category: c }) && final(self).phase
                    == ReprocessPhase::Inserting && final(self).current == c,
                None => a == (ReprocessAction::ReadRange {
                    stop: (old(self).batch_size - 1) as usize,
                }) && final(self).phase == ReprocessPhase::Reading,
            },
    {
        let next = if from <= 0 && self.events.len() > 0 {
            Some(Category::Events)
        } else if from <= 1 && self.guardian.len() > 0 {
            Some(Category::Guardian)
        } else if from <= 2 && self.join.len() > 0 {
            Some(Category::Join)
        } else {
            None
        };
        match next {
            Some(c) => {
                self.current = c;
                self.phase = ReprocessPhase::Inserting;
                ReprocessAction::Insert { category: c }
            },
            None => self.read_next(),
        }
    }

    fn position(c: Category) -> (r: usize)
        ensures
            r == index_of(c),
    {
        match c {
            Category::Events => 0,
            Category::Guardian => 1,
            Category::Join => 2,
        }
    }

    /// Takes the outcome of the last action and says what to do next. The
    /// loop never ends: a transport failure or an empty queue leads to a
    /// sleep, and an event out of turn to a fresh read.
    pub fn step(&mut self, event: ReprocessEvent) -> (a: ReprocessAction)
        requires
            old(self).wf(),
        ensures
            final(self).wf(),
            final(self).batch_size == old(self).batch_size,
            match (old(self).phase, event) {
                (ReprocessPhase::Reading, ReprocessEvent::Ranged(entries)) => if entries.len() == 0 {
                    a == (ReprocessAction::Sleep { ms: IDLE_SLEEP_MS }) && final(self).phase
                        == ReprocessPhase::Sleeping
                } else {
                    a == (ReprocessAction::Trim { count: entries.len() }) && final(self).phase
                        == ReprocessPhase::Trimming && final(self).drained == entries
                },
                (ReprocessPhase::Trimming, ReprocessEvent::Trimmed) => {
                    let held = decoded_dead_letters(entry_views(old(self).drained@));
                    &&& final(self).events@ == records_for(held, Category::Events)
                    &&& final(self).guardian@ == records_for(held, Category::Guardian)
                    &&& final(self).join@ == records_for(held, Category::Join)
                    &&& match final(self).next_group(0) {
                        Some(c) => a == (ReprocessAction::Insert { category: c })
                            && final(self).current == c,
                        None => a == (ReprocessAction::ReadRange {
                            stop: (old(self).batch_size - 1) as usize,
                        }),
                    }
                },
                (ReprocessPhase::Inserting, ReprocessEvent::Inserted) | (
                    ReprocessPhase::PushingBack,
                    ReprocessEvent::PushedBack,
                ) => {
                    &&& final(self).same_groups(old(self))
                    &&& match old(self).next_group(index_of(old(self).current) + 1) {
                        Some(c) => a == (ReprocessAction::Insert { category: c })
                            && final(self).current == c,
                        None => a == (ReprocessAction::ReadRange {
                            stop: (old(self).batch_size - 1) as usize,
                        }),
                    }
                },
                (ReprocessPhase::Inserting, ReprocessEvent::InsertFailed) => {
                    let group = old(self).group_of(old(self).current);
                    &&& final(self).phase == ReprocessPhase::PushingBack
                    &&& final(self).same_groups(old(self))
                    &&& final(self).current == old(self).current
                    &&& a matches ReprocessAction::PushBack { entries }
                    &&& entries.len() == serializable_records(group).len()
                    &&& entry_views(entries@) == dead_letter_entries(old(self).current, group)
                    &&& decoded_dead_letters(entry_views(entries@)) == bound_for(
                        old(self).current,
                        dead_letter_round(group, false).0,
                    )
                },
                (ReprocessPhase::Reading, ReprocessEvent::RangeFailed) | (
                    ReprocessPhase::Trimming,
                    ReprocessEvent::TrimFailed,
                ) => a == (ReprocessAction::Sleep { ms: IDLE_SLEEP_MS }) && final(self).phase
                    == ReprocessPhase::Sleeping,
                _ => a == (ReprocessAction::ReadRange { stop: (old(self).batch_size - 1) as usize })
                    && final(self).phase == ReprocessPhase::Reading,
            },
    {
        match (self.phase, event) {
            (ReprocessPhase::Reading, ReprocessEvent::Ranged(entries)) => {
                if entries.len() == 0 {
                    self.idle()
                } else {
                    let count = entries.len();
                    self.drained = entries;
                    self.phase = ReprocessPhase::Trimming;
                    ReprocessAction::Trim { count }
                }
            },
            (ReprocessPhase::Trimming, ReprocessEvent::Trimmed) => {
                self.sort_drained();
                self.advance(0)
            },
            (ReprocessPhase::Inserting, ReprocessEvent::Inserted) => {
                let from = Self::position(self.current) + 1;
                self.advance(from)
            },
            (ReprocessPhase::PushingBack, ReprocessEvent::PushedBack) => {
                let from = Self::position(self.current) + 1;
                self.advance(from)
            },
            (ReprocessPhase::Inserting, ReprocessEvent::InsertFailed) => {
                let entries = encode_dead_letters(self.current, self.group(self.current));
                self.phase = ReprocessPhase::PushingBack;
                ReprocessAction::PushBack { entries }
            },
            (ReprocessPhase::Reading, ReprocessEvent::RangeFailed) => self.idle(),
            (ReprocessPhase::Trimming, ReprocessEvent::TrimFailed) => self.idle(),
            _ => self.read_next(),
        }
    }

    /// Decodes the drained entries into one group per destination.
    fn sort_drained(&mut self)
        requires
            old(self).wf(),
        ensures
            final(self).wf(),
            final(self).batch_size == old(self).batch_size,
            final(self).phase == old(self).phase,
            final(self).drained == old(self).drained,
            ({
                let held = decoded_dead_letters(entry_views(old(self).drained@));
                &&& final(self).events@ == records_for(held, Category::Events)
                &&& final(self).guardian@ == records_for(held, Category::Guardian)
                &&& final(self).join@ == records_for(held, Category::Join)
            }),
    {
        let ghost views = entry_views(self.drained@);
        self.events = Vec::new();
        self.guardian = Vec::new();
        self.join = Vec::new();
        let mut i: usize = 0;
        while i < self.drained.len()
            invariant
                i <= self.drained.len(),
                self.batch_size >= 1,
                views == entry_views(self.drained@),
                self.batch_size == old(self).batch_size,
                self.phase == old(self).phase,
                self.drained == old(self).drained,
                all_recoverable(self.events@),
                all_recoverable(self.guardian@),
                all_recoverable(self.join@),
                self.events@ == records_for(decoded_dead_letters(views.take(i as int)), Category::Events),
                self.guardian@ == records_for(decoded_dead_letters(views.take(i as int)), Category::Guardian),
                self.join@ == records_for(decoded_dead_letters(views.take(i as int)), Category::Join),
            decreases self.drained.len() - i,
        {
            proof {
                assert(views.take(i + 1).drop_last() =~= views.take(i as int));
            }
            match decode_dead_letter(&self.drained[i]) {
                Some((c, d)) => {
                    proof {
                        let b = crate::codec::base64_decoded(views[i as int]).unwrap().drop_first();
                        assert(bson_parsed(b) == Some(d));
                        assert(recoverable(d));
                        let held = decoded_dead_letters(views.take(i as int));
                        assert(held.push((c, d)).drop_last() =~= held);
                    }
                    match c {
                        Category::Events => self.events.push(d),
                        Category::Guardian => self.guardian.push(d),
                        Category::Join => self.join.push(d),
                    }
                    proof {
                        assert forall|k: int| 0 <= k < self.events@.len() implies recoverable(#[trigger] self.events@[k]) by {}
                        assert forall|k: int| 0 <= k < self.guardian@.len() implies recoverable(#[trigger] self.guardian@[k]) by {}
                        assert forall|k: int| 0 <= k < self.join@.len() implies recoverable(#[trigger] self.join@[k]) by {}
                    }
                },
                None => {},
            }
            i = i + 1;
        }
        proof {
            assert(views.take(self.drained.len() as int) =~= views);
        }
    }
}

} // verus!
