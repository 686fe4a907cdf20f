use crate::codec::{
    all_recoverable, base64_decode, base64_decoded, base64_encode, base64_encoded,
    bson_from_slice, bson_parsed, bson_serialized, bson_to_vec, entry_views, recoverable,
    serializable_records,
};
use crate::config::{category_of_tag, tag_of, Category};
use bson::Document;
use vstd::prelude::*;

verus! {

/// A dead-letter entry: the tag byte of the record's destination followed by
/// the record's BSON bytes, all in base64.
pub open spec fn dead_letter_encoded(c: Category, d: Document) -> Option<Seq<char>> {
    match bson_serialized(d) {
        Some(b) => Some(base64_encoded(seq![tag_of(c)] + b)),
        None => None,
    }
}

/// The destination and record that a dead-letter entry holds, if it is well formed.
pub open spec fn dead_letter_decoded(s: Seq<char>) -> Option<(Category, Document)> {
    match base64_decoded(s) {
        Some(b) => if b.len() > 0 {
            match category_of_tag(b[0]) {
                Some(c) => match bson_parsed(b.drop_first()) {
                    Some(d) => Some((c, d)),
                    None => None,
                },
                None => None,
            }
        } else {
            None
        },
        None => None,
    }
}

/// What a batch of dead-letter entries holds, in order, malformed ones left out.
pub open spec fn decoded_dead_letters(entries: Seq<Seq<char>>) -> Seq<(Category, Document)>
    decreases entries.len(),
{
    if entries.len() == 0 {
        Seq::empty()
    } else {
        let rest = decoded_dead_letters(entries.drop_last());
        match dead_letter_decoded(entries.last()) {
            Some(x) => rest.push(x),
            None => rest,
        }
    }
}

/// The dead-letter entries of a batch of records bound for `c`, in order,
/// those that cannot be serialized left out.
pub open spec fn dead_letter_entries(c: Category, records: Seq<Document>) -> Seq<Seq<char>>
    decreases records.len(),
{
    if records.len() == 0 {
        Seq::empty()
    } else {
        let rest = dead_letter_entries(c, records.drop_last());
        match dead_letter_encoded(c, records.last()) {
            Some(s) => rest.push(s),
            None => rest,
        }
    }
}

/// Each record paired with the destination `c`.
pub open spec fn bound_for(c: Category, records: Seq<Document>) -> Seq<(Category, Document)> {
    records.map_values(|d: Document| (c, d))
}

/// The records bound for `c`, in order.
pub open spec fn records_for(entries: Seq<(Category, Document)>, c: Category) -> Seq<Document>
    decreases entries.len(),
{
    if entries.len() == 0 {
        Seq::empty()
    } else {
        let rest = records_for(entries.drop_last(), c);
        if entries.last().0 == c {
            rest.push(entries.last().1)
        } else {
            rest
        }
    }
}

/// Encodes a record bound for `category` as a dead-letter entry. It fails only
/// where the record cannot be serialized; a recoverable record comes back,
/// with its destination, from a decode of the entry.
pub fn encode_dead_letter(category: Category, d: &Document) -> (r: Option<String>)
    ensures
        match r {
            Some(s) => dead_letter_encoded(category, *d) == Some(s@),
            None => dead_letter_encoded(category, *d) is None,
        },
        recoverable(*d) ==> (r matches Some(s) ==> dead_letter_decoded(s@) == Some((category, *d))),
{
    match bson_to_vec(d) {
        Some(bytes) => {
            let mut framed: Vec<u8> = Vec::new();
            framed.push(category.tag());
            let mut i: usize = 0;
            while i < bytes.len()
                invariant
                    i <= bytes.len(),
                    framed@ =~= seq![tag_of(category)] + bytes@.take(i as int),
                decreases bytes.len() - i,
            {
                framed.push(bytes[i]);
                proof {
                    assert(bytes@.take(i + 1) =~= bytes@.take(i as int).push(bytes@[i as int]));
                }
                i = i + 1;
            }
            proof {
                assert(bytes@.take(bytes.len() as int) =~= bytes@);
                assert(framed@.drop_first() =~= bytes@);
                assert(framed@[0] == tag_of(category));
            }
            Some(base64_encode(&framed))
        },
        None => None,
    }
}

/// Decodes a dead-letter entry into its destination and record.
pub fn decode_dead_letter(s: &String) -> (r: Option<(Category, Document)>)
    ensures
        r == dead_letter_decoded(s@),
{
    match base64_decode(s) {
        Some(bytes) => {
            if bytes.len() == 0 {
                return None;
            }
            match Category::from_tag(bytes[0]) {
                Some(c) => {
                    let mut rest: Vec<u8> = Vec::new();
                    let mut i: usize = 1;
                    while i < bytes.len()
                        invariant
                            1 <= i <= bytes.len(),
                            rest@ =~= bytes@.subrange(1, i as int),
                        decreases bytes.len() - i,
                    {
                        rest.push(bytes[i]);
                        i = i + 1;
                    }
                    proof {
                        assert(rest@ =~= bytes@.drop_first());
                    }
                    match bson_from_slice(&rest) {
                        Some(d) => Some((c, d)),
                        None => None,
                    }
                },
                None => None,
            }
        },
        None => None,
    }
}

/// Encodes records bound for `category` as dead-letter entries, best effort:
/// a record that cannot be serialized is left out. When every record is
/// recoverable, the entries decode to exactly the serializable records, each
/// with its destination, in order.
pub fn encode_dead_letters(category: Category, records: &Vec<Document>) -> (r: Vec<String>)
    ensures
        entry_views(r@) == dead_letter_entries(category, records@),
        r.len() == serializable_records(records@).len(),
        all_recoverable(records@) ==> decoded_dead_letters(entry_views(r@)) == bound_for(
            category,
            serializable_records(records@),
        ),
{
    let mut out: Vec<String> = Vec::new();
    let mut i: usize = 0;
    while i < records.len()
        invariant
            i <= records.len(),
            entry_views(out@) == dead_letter_entries(category, records@.take(i as int)),
            out.len() == serializable_records(records@.take(i as int)).len(),
            all_recoverable(records@) ==> decoded_dead_letters(entry_views(out@)) == bound_for(
                category,
                serializable_records(records@.take(i as int)),
            ),
        decreases records.len() - i,
    {
        proof {
            assert(records@.take(i + 1).drop_last() =~= records@.take(i as int));
        }
        match encode_dead_letter(category, &records[i]) {
            Some(s) => {
                let ghost before = out@;
                out.push(s);
                proof {
                    assert(entry_views(out@).drop_last() =~= entry_views(before));
                    assert(entry_views(out@) =~= entry_views(before).push(s@));
                    let prev = serializable_records(records@.take(i as int));
                    assert(bound_for(category, prev.push(records@[i as int])) =~= bound_for(
                        category,
                        prev,
                    ).push((category, records@[i as int])));
                    if all_recoverable(records@) {
                        assert(recoverable(records@[i as int]));
                    }
                }
            },
            None => {},
        }
        i = i + 1;
    }
    proof {
        assert(records@.take(records.len() as int) =~= records@);
    }
    out
}

/// One round over pending records: on success they are persisted; on
/// failure the serializable ones go back to the queue. The pair holds what is
/// pending afterwards and what was persisted.
pub open spec fn dead_letter_round(pending: Seq<Document>, inserted: bool) -> (Seq<Document>, Seq<Document>) {
    if inserted {
        (Seq::empty(), pending)
    } else {
        (serializable_records(pending), Seq::empty())
    }
}

/// `failures` failed rounds and then a successful one: what is still pending
/// and everything persisted.
pub open spec fn rounds_until_success(pending: Seq<Document>, failures: nat) -> (Seq<Document>, Seq<Document>)
    decreases failures,
{
    if failures == 0 {
        dead_letter_round(pending, true)
    } else {
        let (back, stored) = dead_letter_round(pending, false);
        let (left, later) = rounds_until_success(back, (failures - 1) as nat);
        (left, stored + later)
    }
}

/// Idempotence of dead-letter cycling: a record pushed back after each of any
/// number of failed inserts stays pending as that one record, and the insert
/// that finally succeeds persists it exactly once, leaving nothing pending.
pub proof fn lemma_dead_letter_cycling(r: Document, failures: nat)
    requires
        bson_serialized(r) is Some,
    ensures
        rounds_until_success(seq![r], failures).1 == seq![r],
        rounds_until_success(seq![r], failures).0.len() == 0,
    decreases failures,
{
    if failures > 0 {
        let one = seq![r];
        assert(one.drop_last() =~= Seq::<Document>::empty());
        assert(one.last() == r);
        assert(serializable_records(Seq::<Document>::empty()) == Seq::<Document>::empty());
        assert(serializable_records(one) == Seq::<Document>::empty().push(r));
        assert(serializable_records(one) =~= one);
        lemma_dead_letter_cycling(r, (failures - 1) as nat);
        assert(Seq::<Document>::empty() + seq![r] =~= seq![r]);
    }
}

/// An entry that is exactly what encoding its own contents gives.
pub open spec fn canonical(s: Seq<char>) -> bool {
    match dead_letter_decoded(s) {
        Some(x) => dead_letter_encoded(x.0, x.1) == Some(s),
        None => true,
    }
}

/// The well-formed entries bound for `c`, in order.
pub open spec fn entries_for(entries: Seq<Seq<char>>, c: Category) -> Seq<Seq<char>>
    decreases entries.len(),
{
    if entries.len() == 0 {
        Seq::empty()
    } else {
        let rest = entries_for(entries.drop_last(), c);
        match dead_letter_decoded(entries.last()) {
            Some(x) => if x.0 == c {
                rest.push(entries.last())
            } else {
                rest
            },
            None => rest,
        }
    }
}

/// Entries that encoding made, pushed back after a failed insert, are the
/// same text as the entries drained: for each destination, re-encoding its
/// decoded records gives back its drained entries, in order, so cycling
/// cannot compound corruption.
pub proof fn lemma_push_back_unchanged(entries: Seq<Seq<char>>, c: Category)
    requires
        forall|i: int| 0 <= i < entries.len() ==> canonical(#[trigger] entries[i]),
    ensures
        dead_letter_entries(c, records_for(decoded_dead_letters(entries), c)) == entries_for(entries, c),
    decreases entries.len(),
{
    if entries.len() > 0 {
        let init = entries.drop_last();
        assert forall|i: int| 0 <= i < init.len() implies canonical(#[trigger] init[i]) by {
            assert(init[i] == entries[i]);
        }
        lemma_push_back_unchanged(init, c);
        let s = entries.last();
        assert(canonical(entries[entries.len() - 1]));
        let held = decoded_dead_letters(init);
        let recs = records_for(held, c);
        match dead_letter_decoded(s) {
            Some(x) => {
                assert(held.push(x).drop_last() =~= held);
                if x.0 == c {
                    assert(recs.push(x.1).drop_last() =~= recs);
                }
            },
            None => {},
        }
    }
}

} // verus!
