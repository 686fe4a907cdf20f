use vstd::prelude::*;

verus! {

/// What a range read `0..=stop` returns from a list queue whose contents are `q`.
pub open spec fn range_read<T>(q: Seq<T>, stop: int) -> Seq<T> {
    if stop + 1 < q.len() {
        q.take(stop + 1)
    } else {
        q
    }
}

/// The queue after its first `count` entries are trimmed off.
pub open spec fn trimmed<T>(q: Seq<T>, count: int) -> Seq<T> {
    q.skip(count)
}

/// One drain of at most `batch` entries from the head, while producers append
/// `arrivals` at the tail: what is taken, and what is left.
pub open spec fn drain_step<T>(q: Seq<T>, batch: nat, arrivals: Seq<T>) -> (Seq<T>, Seq<T>) {
    let taken = range_read(q, batch - 1);
    (taken, trimmed(q, taken.len() as int) + arrivals)
}

/// Runs drains of the given batch sizes in turn, the `i`-th one followed by
/// the arrivals `arrivals[i]`: everything taken, in order, and what is left.
pub open spec fn drain_all<T>(q: Seq<T>, batches: Seq<nat>, arrivals: Seq<Seq<T>>) -> (Seq<T>, Seq<T>)
    decreases batches.len(),
{
    if batches.len() == 0 || arrivals.len() == 0 {
        (Seq::empty(), q)
    } else {
        let (taken, rest) = drain_step(q, batches[0], arrivals[0]);
        let (more, left) = drain_all(rest, batches.drop_first(), arrivals.drop_first());
        (taken + more, left)
    }
}

pub open spec fn concat<T>(parts: Seq<Seq<T>>) -> Seq<T>
    decreases parts.len(),
{
    if parts.len() == 0 {
        Seq::empty()
    } else {
        parts[0] + concat(parts.drop_first())
    }
}

/// Draining from the head and trimming the count read keeps a queue first in,
/// first out, whatever the batch sizes: what was taken, followed by what is
/// left, is what the queue held followed by what producers appended, in order.
pub proof fn lemma_drains_keep_order<T>(q: Seq<T>, batches: Seq<nat>, arrivals: Seq<Seq<T>>)
    requires
        batches.len() == arrivals.len(),
        forall|i: int| 0 <= i < batches.len() ==> #[trigger] batches[i] >= 1,
    ensures
        drain_all(q, batches, arrivals).0 + drain_all(q, batches, arrivals).1 == q + concat(arrivals),
    decreases batches.len(),
{
    if batches.len() == 0 {
        assert(q + concat(arrivals) =~= q);
    } else {
        let (taken, rest) = drain_step(q, batches[0], arrivals[0]);
        assert(batches[0] >= 1);
        assert forall|i: int| 0 <= i < batches.drop_first().len() implies #[trigger] batches.drop_first()[i] >= 1 by {
            assert(batches.drop_first()[i] == batches[i + 1]);
        }
        lemma_drains_keep_order(rest, batches.drop_first(), arrivals.drop_first());
        let (more, left) = drain_all(rest, batches.drop_first(), arrivals.drop_first());
        assert(taken + trimmed(q, taken.len() as int) =~= q);
        assert(taken + (more + left) =~= q + concat(arrivals));
        assert((taken + more) + left =~= taken + (more + left));
    }
}

/// With no producer appending, entries enqueued in order are drained in that
/// order, across any batch boundaries: the concatenated drains are a prefix
/// of the queue, and all of it once the batches cover its length.
pub proof fn lemma_fifo_without_arrivals<T>(q: Seq<T>, batches: Seq<nat>)
    requires
        forall|i: int| 0 <= i < batches.len() ==> #[trigger] batches[i] >= 1,
    ensures
        q.take(drain_all(q, batches, Seq::new(batches.len(), |i: int| Seq::<T>::empty())).0.len() as int)
            == drain_all(q, batches, Seq::new(batches.len(), |i: int| Seq::<T>::empty())).0,
        batches.len() >= q.len() ==> drain_all(q, batches, Seq::new(batches.len(), |i: int| Seq::<T>::empty())).0 == q,
{
    let arrivals = Seq::new(batches.len(), |i: int| Seq::<T>::empty());
    lemma_concat_empties::<T>(arrivals);
    lemma_drains_keep_order(q, batches, arrivals);
    let (taken, left) = drain_all(q, batches, arrivals);
    assert(q + concat(arrivals) =~= q);
    assert(q.take(taken.len() as int) =~= taken);
    if batches.len() >= q.len() {
        lemma_drain_shrinks(q, batches, arrivals);
        assert(left.len() == 0);
        assert(taken =~= q);
    }
}

proof fn lemma_concat_empties<T>(parts: Seq<Seq<T>>)
    requires
        forall|i: int| 0 <= i < parts.len() ==> (#[trigger] parts[i]).len() == 0,
    ensures
        concat(parts) == Seq::<T>::empty(),
    decreases parts.len(),
{
    if parts.len() > 0 {
        assert forall|i: int| 0 <= i < parts.drop_first().len() implies (#[trigger] parts.drop_first()[i]).len() == 0 by {
            assert(parts.drop_first()[i] == parts[i + 1]);
        }
        lemma_concat_empties(parts.drop_first());
        assert(parts[0] =~= Seq::<T>::empty());
        assert(parts[0] + concat(parts.drop_first()) =~= Seq::<T>::empty());
    }
}

/// Each drain without arrivals takes at least one entry while any are left.
proof fn lemma_drain_shrinks<T>(q: Seq<T>, batches: Seq<nat>, arrivals: Seq<Seq<T>>)
    requires
        batches.len() == arrivals.len(),
        forall|i: int| 0 <= i < batches.len() ==> #[trigger] batches[i] >= 1,
        forall|i: int| 0 <= i < arrivals.len() ==> (#[trigger] arrivals[i]).len() == 0,
    ensures
        drain_all(q, batches, arrivals).1.len() <= if q.len() >= batches.len() {
            q.len() - batches.len()
        } else {
            0
        },
    decreases batches.len(),
{
    if batches.len() > 0 {
        assert(batches[0] >= 1);
        assert(arrivals[0].len() == 0);
        let (taken, rest) = drain_step(q, batches[0], arrivals[0]);
        assert forall|i: int| 0 <= i < batches.drop_first().len() implies #[trigger] batches.drop_first()[i] >= 1 by {
            assert(batches.drop_first()[i] == batches[i + 1]);
        }
        assert forall|i: int| 0 <= i < arrivals.drop_first().len() implies (#[trigger] arrivals.drop_first()[i]).len() == 0 by {
            assert(arrivals.drop_first()[i] == arrivals[i + 1]);
        }
        lemma_drain_shrinks(rest, batches.drop_first(), arrivals.drop_first());
    }
}

} // verus!
