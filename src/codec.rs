use base64::engine::general_purpose::STANDARD as BASE64;
use base64::Engine;
use bson::spec::BinarySubtype;
use bson::{Binary, Document};
use std::io::Cursor;
use vstd::prelude::*;

verus! {

/// A BSON document of the `bson` crate, carried through without looking inside.
#[verifier::external_type_specification]
#[verifier::external_body]
pub struct ExDocument(Document);

/// What base64's standard engine (padded alphabet) decodes `s` to, if it is valid.
pub uninterp spec fn base64_decoded(s: Seq<char>) -> Option<Seq<u8>>;

/// The text that base64's standard engine encodes `b` as.
pub uninterp spec fn base64_encoded(b: Seq<u8>) -> Seq<char>;

/// The document that `bson::from_slice` reads from `b`, if `b` holds one.
pub uninterp spec fn bson_parsed(b: Seq<u8>) -> Option<Document>;

/// The bytes that `bson::to_vec` writes for `d`, if it can serialize it.
pub uninterp spec fn bson_serialized(d: Document) -> Option<Seq<u8>>;

/// What `zstd::encode_all` at `level` makes of `b`, if it succeeds.
pub uninterp spec fn zstd_compressed(b: Seq<u8>, level: i32) -> Option<Seq<u8>>;

/// The document `{ k1: <generic binary b>, k2: <Int64 v> }`.
pub uninterp spec fn binary_int_document(k1: Seq<char>, b: Seq<u8>, k2: Seq<char>, v: i64) -> Document;

/// The compression level of stored records.
pub const ZSTD_LEVEL: i32 = 3;

/// The field of a stored record that holds its compressed BSON bytes.
pub const COMPRESSED_FIELD: &'static str = "compressed";

/// The field of a stored record that holds its insertion time, in milliseconds.
pub const TIMESTAMP_FIELD: &'static str = "ts";

/// Serializing `d`, where that succeeds, gives bytes that parse back to `d`.
pub open spec fn round_trips(d: Document) -> bool {
    match bson_serialized(d) {
        Some(b) => bson_parsed(b) == Some(d),
        None => true,
    }
}

/// A record whose serialized bytes are known to parse back to it.
pub open spec fn recoverable(d: Document) -> bool {
    parsed_document(d) || round_trips(d)
}

pub open spec fn all_recoverable(records: Seq<Document>) -> bool {
    forall|i: int| 0 <= i < records.len() ==> recoverable(#[trigger] records[i])
}

/// What the codec encodes a record as: its BSON bytes in base64.
pub open spec fn envelope_encoded(d: Document) -> Option<Seq<char>> {
    match bson_serialized(d) {
        Some(b) => Some(base64_encoded(b)),
        None => None,
    }
}

/// A document that some byte string parses to.
pub open spec fn parsed_document(d: Document) -> bool {
    exists|b: Seq<u8>| #[trigger] bson_parsed(b) == Some(d)
}

/// What an envelope decodes to: base64 outside, a BSON document inside.
pub open spec fn envelope_decoded(s: Seq<char>) -> Option<Document> {
    match base64_decoded(s) {
        Some(b) => bson_parsed(b),
        None => None,
    }
}

/// The stored form of a record: its BSON bytes compressed, with the
/// insertion time.
pub open spec fn stored_form(d: Document, ts: i64) -> Option<Document> {
    match bson_serialized(d) {
        Some(b) => match zstd_compressed(b, ZSTD_LEVEL) {
            Some(c) => Some(binary_int_document(COMPRESSED_FIELD@, c, TIMESTAMP_FIELD@, ts)),
            None => None,
        },
        None => None,
    }
}

/// The stored forms of a batch, in order, those that cannot be stored left out.
pub open spec fn stored_records(records: Seq<Document>, ts: i64) -> Seq<Document>
    decreases records.len(),
{
    if records.len() == 0 {
        Seq::empty()
    } else {
        let rest = stored_records(records.drop_last(), ts);
        match stored_form(records.last(), ts) {
            Some(x) => rest.push(x),
            None => rest,
        }
    }
}

pub open spec fn entry_views(entries: Seq<String>) -> Seq<Seq<char>> {
    entries.map_values(|s: String| s@)
}

/// The records of a batch of envelopes, in order, those that fail to decode left out.
pub open spec fn decoded_records(entries: Seq<Seq<char>>) -> Seq<Document>
    decreases entries.len(),
{
    if entries.len() == 0 {
        Seq::empty()
    } else {
        let rest = decoded_records(entries.drop_last());
        match envelope_decoded(entries.last()) {
            Some(d) => rest.push(d),
            None => rest,
        }
    }
}

/// The records that can be serialized, in order.
pub open spec fn serializable_records(records: Seq<Document>) -> Seq<Document>
    decreases records.len(),
{
    if records.len() == 0 {
        Seq::empty()
    } else {
        let rest = serializable_records(records.drop_last());
        if bson_serialized(records.last()) is Some {
            rest.push(records.last())
        } else {
            rest
        }
    }
}

pub open spec fn all_parsed(records: Seq<Document>) -> bool {
    forall|i: int| 0 <= i < records.len() ==> parsed_document(#[trigger] records[i])
}

/// The envelopes of a batch of records, in order, those that cannot be
/// serialized left out.
pub open spec fn encoded_entries(records: Seq<Document>) -> Seq<Seq<char>>
    decreases records.len(),
{
    if records.len() == 0 {
        Seq::empty()
    } else {
        let rest = encoded_entries(records.drop_last());
        match envelope_encoded(records.last()) {
            Some(s) => rest.push(s),
            None => rest,
        }
    }
}

/// Relies on base64's `Engine::decode` with the `STANDARD` engine: the bytes
/// that a valid padded base64 string stands for, an error otherwise.
#[verifier::external_body]
pub(crate) fn base64_decode(s: &String) -> (r: Option<Vec<u8>>)
    ensures
        match r {
            Some(v) => base64_decoded(s@) == Some(v@),
            None => base64_decoded(s@) is None,
        },
{
    BASE64.decode(s).ok()
}

/// Relies on base64's `Engine::encode` with the `STANDARD` engine: canonical
/// padded text, which decodes with the same engine to the input.
#[verifier::external_body]
pub(crate) fn base64_encode(b: &Vec<u8>) -> (r: String)
    ensures
        r@ == base64_encoded(b@),
        base64_decoded(r@) == Some(b@),
{
    BASE64.encode(b)
}

/// Relies on `bson::from_slice::<Document>`: the document that the bytes hold,
/// if they hold one.
#[verifier::external_body]
pub(crate) fn bson_from_slice(b: &Vec<u8>) -> (r: Option<Document>)
    ensures
        r == bson_parsed(b@),
{
    bson::from_slice::<Document>(b).ok()
}

/// Relies on `bson::to_vec` on a `Document`: its BSON bytes, which parse back
/// to a document that was itself parsed.
#[verifier::external_body]
pub(crate) fn bson_to_vec(d: &Document) -> (r: Option<Vec<u8>>)
    ensures
        match r {
            Some(v) => bson_serialized(*d) == Some(v@)
                && (parsed_document(*d) ==> bson_parsed(v@) == Some(*d)),
            None => bson_serialized(*d) is None,
        },
{
    bson::to_vec(d).ok()
}

/// Relies on `zstd::encode_all` over an in-memory reader: a single-threaded
/// stream compression whose output, or error, depends on the input and the
/// level alone.
#[verifier::external_body]
fn zstd_encode(b: Vec<u8>, level: i32) -> (r: Option<Vec<u8>>)
    ensures
        match r {
            Some(c) => zstd_compressed(b@, level) == Some(c@),
            None => zstd_compressed(b@, level) is None,
        },
{
    zstd::encode_all(Cursor::new(b), level).ok()
}

/// Relies on `bson::Document::new` and `Document::insert`: a document with
/// `b` as a generic binary under `k1` and `v` as an `Int64` under `k2`. A
/// generic binary parses back as one and an `Int64` as one, so where the
/// document serializes its bytes parse back to it (keys that start with `$`
/// are left out: the parser reads some of them as extended JSON).
#[verifier::external_body]
fn binary_int_document_of(k1: &str, b: Vec<u8>, k2: &str, v: i64) -> (r: Document)
    requires
        k1@.len() > 0 && k1@[0] != '$',
        k2@.len() > 0 && k2@[0] != '$',
    ensures
        r == binary_int_document(k1@, b@, k2@, v),
        round_trips(r),
{
    let mut d = Document::new();
    d.insert(k1, Binary { subtype: BinarySubtype::Generic, bytes: b });
    d.insert(k2, v);
    d
}

/// Decodes one envelope: base64 text around BSON bytes.
pub fn decode_envelope(s: &String) -> (r: Option<Document>)
    ensures
        r == envelope_decoded(s@),
{
    match base64_decode(s) {
        Some(bytes) => bson_from_slice(&bytes),
        None => None,
    }
}

/// Encodes a record as an envelope. It fails only where the record cannot be
/// serialized; a recoverable record (one that came out of a decode, or a
/// stored form) comes back from a decode of its envelope unchanged.
pub fn encode_envelope(d: &Document) -> (r: Option<String>)
    ensures
        match r {
            Some(s) => envelope_encoded(*d) == Some(s@),
            None => envelope_encoded(*d) is None,
        },
        recoverable(*d) ==> (r matches Some(s) ==> envelope_decoded(s@) == Some(*d)),
{
    match bson_to_vec(d) {
        Some(bytes) => Some(base64_encode(&bytes)),
        None => None,
    }
}

/// Decodes a batch of envelopes, dropping those that do not decode.
pub fn decode_batch(entries: &Vec<String>) -> (r: Vec<Document>)
    ensures
        r@ == decoded_records(entry_views(entries@)),
{
    let ghost views = entry_views(entries@);
    let mut out: Vec<Document> = Vec::new();
    let mut i: usize = 0;
    while i < entries.len()
        invariant
            i <= entries.len(),
            views == entry_views(entries@),
            out@ == decoded_records(views.take(i as int)),
        decreases entries.len() - i,
    {
        proof {
            assert(views.take(i + 1).drop_last() =~= views.take(i as int));
        }
        match decode_envelope(&entries[i]) {
            Some(d) => out.push(d),
            None => {},
        }
        i = i + 1;
    }
    proof {
        assert(views.take(entries.len() as int) =~= views);
    }
    out
}

/// Encodes records as envelopes, best effort: a record that cannot be
/// serialized is left out. When every record is recoverable, the envelopes
/// decode to exactly the serializable records, in order.
pub fn encode_batch(records: &Vec<Document>) -> (r: Vec<String>)
    ensures
        entry_views(r@) == encoded_entries(records@),
        r.len() == serializable_records(records@).len(),
        all_recoverable(records@) ==> decoded_records(entry_views(r@)) == serializable_records(records@),
{
    let mut out: Vec<String> = Vec::new();
    let mut i: usize = 0;
    while i < records.len()
        invariant
            i <= records.len(),
            entry_views(out@) == encoded_entries(records@.take(i as int)),
            out.len() == serializable_records(records@.take(i as int)).len(),
            all_recoverable(records@) ==> decoded_records(entry_views(out@)) == serializable_records(
                records@.take(i as int),
            ),
        decreases records.len() - i,
    {
        proof {
            assert(records@.take(i + 1).drop_last() =~= records@.take(i as int));
        }
        match encode_envelope(&records[i]) {
            Some(s) => {
                let ghost before = out@;
                out.push(s);
                proof {
                    assert(entry_views(out@).drop_last() =~= entry_views(before));
                    if all_recoverable(records@) {
                        assert(recoverable(records@[i as int]));
                    }
                }
            },
            None => {},
        }
        i = i + 1;
    }
    proof {
        assert(records@.take(records.len() as int) =~= records@);
    }
    out
}

/// The stored form of one record: `{ compressed: <zstd of its BSON bytes>,
/// ts: <ts> }`, or `None` where it cannot be serialized or compressed.
pub fn store_record(d: &Document, ts: i64) -> (r: Option<Document>)
    ensures
        r == stored_form(*d, ts),
        r matches Some(x) ==> round_trips(x),
{
    proof {
        reveal_strlit("compressed");
        reveal_strlit("ts");
    }
    match bson_to_vec(d) {
        Some(bytes) => match zstd_encode(bytes, ZSTD_LEVEL) {
            Some(c) => Some(binary_int_document_of(COMPRESSED_FIELD, c, TIMESTAMP_FIELD, ts)),
            None => None,
        },
        None => None,
    }
}

/// The stored forms of a batch of records, all with the same timestamp, in
/// order; a record that cannot be stored is left out.
pub fn store_batch(records: &Vec<Document>, ts: i64) -> (r: Vec<Document>)
    ensures
        r@ == stored_records(records@, ts),
        forall|k: int| 0 <= k < r.len() ==> round_trips(#[trigger] r@[k]),
{
    let mut out: Vec<Document> = Vec::new();
    let mut i: usize = 0;
    while i < records.len()
        invariant
            i <= records.len(),
            out@ == stored_records(records@.take(i as int), ts),
            forall|k: int| 0 <= k < out.len() ==> round_trips(#[trigger] out@[k]),
        decreases records.len() - i,
    {
        proof {
            assert(records@.take(i + 1).drop_last() =~= records@.take(i as int));
        }
        match store_record(&records[i], ts) {
            Some(x) => out.push(x),
            None => {},
        }
        i = i + 1;
    }
    proof {
        assert(records@.take(records.len() as int) =~= records@);
    }
    out
}

/// When every record of a batch can be stored, the batch keeps its length:
/// the count that a successful flush reports is the number of records decoded.
pub proof fn lemma_all_stored(records: Seq<Document>, ts: i64)
    requires
        forall|i: int| 0 <= i < records.len() ==> (#[trigger] stored_form(records[i], ts)) is Some,
    ensures
        stored_records(records, ts).len() == records.len(),
    decreases records.len(),
{
    if records.len() > 0 {
        let init = records.drop_last();
        assert forall|i: int| 0 <= i < init.len() implies (#[trigger] stored_form(init[i], ts)) is Some by {
            assert(init[i] == records[i]);
        }
        lemma_all_stored(init, ts);
        assert(stored_form(records[records.len() - 1], ts) is Some);
    }
}

} // verus!
