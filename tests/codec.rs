use base64::engine::general_purpose::STANDARD;
use base64::Engine;
use bson::Document;
use log_worker::codec::{
    decode_batch, decode_envelope, encode_batch, encode_envelope, store_batch, store_record,
};

fn record(guild: &str, at: i64) -> Document {
    let mut d = Document::new();
    d.insert("guildId", guild);
    d.insert("action", "ban");
    d.insert("loggedAt", at);
    d
}

fn envelope(d: &Document) -> String {
    STANDARD.encode(bson::to_vec(d).unwrap())
}

#[test]
fn decode_reads_base64_bson() {
    let d = record("g1", 17);
    assert_eq!(decode_envelope(&envelope(&d)), Some(d));
}

#[test]
fn decode_rejects_bad_base64() {
    assert_eq!(decode_envelope(&"not base64!".to_string()), None);
}

#[test]
fn decode_rejects_bad_bson() {
    let s = STANDARD.encode([1u8, 2, 3, 4, 5]);
    assert_eq!(decode_envelope(&s), None);
}

#[test]
fn encode_then_decode_round_trips() {
    let d = record("g2", 99);
    let decoded = decode_envelope(&envelope(&d)).unwrap();
    let again = encode_envelope(&decoded).unwrap();
    assert_eq!(again, envelope(&d));
    assert_eq!(decode_envelope(&again), Some(d));
}

#[test]
fn decode_batch_drops_undecodable_entry() {
    let a = record("a", 1);
    let c = record("c", 3);
    let entries = vec![envelope(&a), "%%%".to_string(), envelope(&c)];
    assert_eq!(decode_batch(&entries), vec![a, c]);
}

#[test]
fn encode_batch_keeps_order() {
    let recs = vec![record("x", 1), record("y", 2)];
    let out = encode_batch(&recs);
    assert_eq!(out, vec![envelope(&recs[0]), envelope(&recs[1])]);
}

#[test]
fn store_record_compresses_and_stamps() {
    let d = record("g3", 5);
    let stored = store_record(&d, 1234).unwrap();
    assert_eq!(stored.get_i64("ts").unwrap(), 1234);
    let compressed = stored.get_binary_generic("compressed").unwrap();
    assert_ne!(compressed, &bson::to_vec(&d).unwrap());
    let raw = zstd::decode_all(&compressed[..]).unwrap();
    assert_eq!(raw, bson::to_vec(&d).unwrap());
    assert_eq!(stored.len(), 2);
}

#[test]
fn store_batch_stores_each_record() {
    let recs = vec![record("x", 1), record("y", 2)];
    let out = store_batch(&recs, 7);
    assert_eq!(out.len(), 2);
    for (s, r) in out.iter().zip(recs.iter()) {
        let raw = zstd::decode_all(&s.get_binary_generic("compressed").unwrap()[..]).unwrap();
        assert_eq!(raw, bson::to_vec(r).unwrap());
        assert_eq!(s.get_i64("ts").unwrap(), 7);
    }
}
