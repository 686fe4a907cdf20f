use vstd::prelude::*;

verus! {

/// The backlog bands of the tuning policy.
#[derive(PartialEq, Eq, Structural, Clone, Copy, Debug)]
pub enum Tier {
    /// More than 100,000 entries waiting.
    Surge,
    /// More than 10,000 and at most 100,000.
    High,
    /// More than 1,000 and at most 10,000.
    Normal,
    /// At most 1,000.
    Low,
}

/// Whether `backlog` lies in the band of `t`; each bound belongs to the lower band.
pub open spec fn in_band(t: Tier, backlog: int) -> bool {
    match t {
        Tier::Surge => backlog > 100_000,
        Tier::High => 10_000 < backlog <= 100_000,
        Tier::Normal => 1_000 < backlog <= 10_000,
        Tier::Low => 0 <= backlog <= 1_000,
    }
}

pub open spec fn tier_of(backlog: int) -> Tier {
    if backlog > 100_000 {
        Tier::Surge
    } else if backlog > 10_000 {
        Tier::High
    } else if backlog > 1_000 {
        Tier::Normal
    } else {
        Tier::Low
    }
}

/// The (batch size, interval) pair that a tier asks for.
pub open spec fn tuned_for(t: Tier, base_batch: int, base_interval: int) -> (int, int) {
    match t {
        Tier::Surge => (base_batch * 4, base_interval / 2),
        Tier::High => (base_batch * 2, base_interval / 2),
        Tier::Normal => (base_batch, base_interval),
        Tier::Low => (base_batch / 2, base_interval * 2),
    }
}

pub open spec fn tuned(backlog: int, base_batch: int, base_interval: int) -> (int, int) {
    tuned_for(tier_of(backlog), base_batch, base_interval)
}

/// The bases for which every tier's result fits the machine integers.
pub open spec fn bases_fit(base_batch: int, base_interval: int) -> bool {
    base_batch * 4 <= usize::MAX && base_interval * 2 <= u64::MAX
}

/// The result for `backlog` fits the machine integers: only the bands that
/// multiply a base can overflow.
pub open spec fn tuning_fits(backlog: int, base_batch: int, base_interval: int) -> bool {
    match tier_of(backlog) {
        Tier::Surge => base_batch * 4 <= usize::MAX,
        Tier::High => base_batch * 2 <= usize::MAX,
        Tier::Normal => true,
        Tier::Low => base_interval * 2 <= u64::MAX,
    }
}

/// The backlog that a cycle tunes for: the known depths summed, capped at `usize::MAX`.
pub open spec fn capped_backlog(lengths: Seq<Option<usize>>) -> int {
    if sum_known(lengths) <= usize::MAX {
        sum_known(lengths)
    } else {
        usize::MAX as int
    }
}

/// The band that a backlog falls in.
pub fn tier(backlog: usize) -> (t: Tier)
    ensures
        t == tier_of(backlog as int),
{
    if backlog > 100_000 {
        Tier::Surge
    } else if backlog > 10_000 {
        Tier::High
    } else if backlog > 1000 {
        Tier::Normal
    } else {
        Tier::Low
    }
}

/// Batch size and flush interval for the current backlog.
pub fn adjust_tuning(queue_len: usize, base_batch: usize, base_interval: u64) -> (r: (usize, u64))
    requires
        tuning_fits(queue_len as int, base_batch as int, base_interval as int),
    ensures
        (r.0 as int, r.1 as int) == tuned(queue_len as int, base_batch as int, base_interval as int),
{
    match tier(queue_len) {
        Tier::Surge => (base_batch * 4, base_interval / 2),
        Tier::High => (base_batch * 2, base_interval / 2),
        Tier::Normal => (base_batch, base_interval),
        Tier::Low => (base_batch / 2, base_interval * 2),
    }
}

pub open spec fn sum_known(lengths: Seq<Option<usize>>) -> int
    decreases lengths.len(),
{
    if lengths.len() == 0 {
        0
    } else {
        sum_known(lengths.drop_last()) + match lengths.last() {
            Some(n) => n as int,
            None => 0,
        }
    }
}

/// The total backlog: the sum of the queue lengths that could be read, a
/// failed read counting as zero, capped at `usize::MAX`.
pub fn backlog_total(lengths: &Vec<Option<usize>>) -> (r: usize)
    ensures
        r as int == if sum_known(lengths@) <= usize::MAX { sum_known(lengths@) } else { usize::MAX as int },
{
    let mut total: usize = 0;
    let mut capped = false;
    let mut i: usize = 0;
    while i < lengths.len()
        invariant
            i <= lengths.len(),
            0 <= sum_known(lengths@.take(i as int)),
            capped ==> total == usize::MAX && sum_known(lengths@.take(i as int)) > usize::MAX,
            !capped ==> total as int == sum_known(lengths@.take(i as int)),
        decreases lengths.len() - i,
    {
        proof {
            assert(lengths@.take(i + 1).drop_last() =~= lengths@.take(i as int));
        }
        let n: usize = match lengths[i] {
            Some(n) => n,
            None => 0,
        };
        if !capped {
            if total <= usize::MAX - n {
                total = total + n;
            } else {
                total = usize::MAX;
                capped = true;
            }
        }
        i = i + 1;
    }
    proof {
        assert(lengths@.take(lengths.len() as int) =~= lengths@);
    }
    total
}

/// The tuning of one cycle from the depths read from each queue, a failed
/// read counting as zero.
pub fn tune_cycle(lengths: &Vec<Option<usize>>, base_batch: usize, base_interval: u64) -> (r: (usize, u64))
    requires
        tuning_fits(capped_backlog(lengths@), base_batch as int, base_interval as int),
    ensures
        (r.0 as int, r.1 as int) == tuned(capped_backlog(lengths@), base_batch as int, base_interval as int),
{
    adjust_tuning(backlog_total(lengths), base_batch, base_interval)
}

/// Each backlog lies in exactly one band, the one that `tier_of` picks, so
/// every bound counts toward the band below it; and the tuned pair is the one
/// of that band.
pub proof fn lemma_tiers_partition(backlog: int, base_batch: int, base_interval: int)
    requires
        backlog >= 0,
        base_batch > 0,
        base_interval > 0,
    ensures
        forall|t: Tier| #[trigger] in_band(t, backlog) <==> t == tier_of(backlog),
        tuned(backlog, base_batch, base_interval) == tuned_for(tier_of(backlog), base_batch, base_interval),
        in_band(Tier::Normal, 1_000) == false && in_band(Tier::Low, 1_000),
        in_band(Tier::High, 10_000) == false && in_band(Tier::Normal, 10_000),
        in_band(Tier::Surge, 100_000) == false && in_band(Tier::High, 100_000),
{
    assert forall|t: Tier| #[trigger] in_band(t, backlog) <==> t == tier_of(backlog) by {
        match t {
            Tier::Surge => {},
            Tier::High => {},
            Tier::Normal => {},
            Tier::Low => {},
        }
    }
}

} // verus!
