use base64::engine::general_purpose::STANDARD;
use base64::Engine;
use bson::Document;
use log_worker::config::Category;
use log_worker::dead_letter::{decode_dead_letter, encode_dead_letter, encode_dead_letters};
use log_worker::reprocessor::{DeadLetterReprocessor, ReprocessAction, ReprocessEvent, IDLE_SLEEP_MS};

fn record(guild: &str) -> Document {
    let mut d = Document::new();
    d.insert("guildId", guild);
    d
}

fn entry(c: Category, d: &Document) -> String {
    encode_dead_letter(c, d).unwrap()
}

/// Runs the reprocessor over an in-memory queue (pushes go to the head) until
/// it has made `rounds` insert attempts; attempt `n` succeeds when `ok(n)`.
/// Returns what each destination received, and how many sleeps there were.
fn run(
    queue: &mut Vec<String>,
    rounds: usize,
    ok: &dyn Fn(usize) -> bool,
) -> (Vec<(Category, Document)>, usize) {
    let (mut rp, mut action) = DeadLetterReprocessor::new(10);
    let mut persisted = Vec::new();
    let mut attempts = 0;
    let mut sleeps = 0;
    loop {
        let event = match action {
            ReprocessAction::ReadRange { stop } => {
                if attempts >= rounds {
                    return (persisted, sleeps);
                }
                let n = std::cmp::min(stop + 1, queue.len());
                ReprocessEvent::Ranged(queue[..n].to_vec())
            }
            ReprocessAction::Trim { count } => {
                queue.drain(..count);
                ReprocessEvent::Trimmed
            }
            ReprocessAction::Insert { category } => {
                attempts += 1;
                if ok(attempts) {
                    persisted.extend(rp.group(category).iter().map(|d| (category, d.clone())));
                    ReprocessEvent::Inserted
                } else {
                    ReprocessEvent::InsertFailed
                }
            }
            ReprocessAction::PushBack { entries } => {
                for e in entries {
                    queue.insert(0, e);
                }
                ReprocessEvent::PushedBack
            }
            ReprocessAction::Sleep { ms } => {
                assert_eq!(ms, IDLE_SLEEP_MS);
                sleeps += 1;
                if sleeps > 3 {
                    return (persisted, sleeps);
                }
                ReprocessEvent::Slept
            }
        };
        action = rp.step(event);
    }
}

#[test]
fn dead_letter_entry_round_trips() {
    let d = record("g0");
    let s = entry(Category::Join, &d);
    assert_eq!(decode_dead_letter(&s), Some((Category::Join, d)));
}

#[test]
fn dead_letter_rejects_malformed_entries() {
    assert_eq!(decode_dead_letter(&"***".to_string()), None);
    assert_eq!(decode_dead_letter(&String::new()), None);
    let untagged = base64_of(&bson::to_vec(&record("x")).unwrap());
    assert_eq!(decode_dead_letter(&untagged), None);
}

fn base64_of(b: &[u8]) -> String {
    STANDARD.encode(b)
}

#[test]
fn dead_letter_batch_keeps_order() {
    let recs = vec![record("a"), record("b")];
    let out = encode_dead_letters(Category::Guardian, &recs);
    assert_eq!(out, vec![entry(Category::Guardian, &recs[0]), entry(Category::Guardian, &recs[1])]);
}

#[test]
fn dead_letter_cycling_persists_once() {
    let r = record("g1");
    let mut queue = vec![entry(Category::Events, &r)];
    let (persisted, _) = run(&mut queue, 4, &|n| n == 4);
    assert_eq!(persisted, vec![(Category::Events, r)]);
    assert!(queue.is_empty());
}

#[test]
fn dead_letter_failure_pushes_back_same_entry() {
    let r = record("g2");
    let drained = entry(Category::Guardian, &r);
    let mut queue = vec![drained.clone()];
    let (persisted, _) = run(&mut queue, 3, &|_| false);
    assert!(persisted.is_empty());
    assert_eq!(queue, vec![drained]);
}

#[test]
fn dead_letter_records_return_to_their_destination() {
    let a = record("a");
    let b = record("b");
    let c = record("c");
    let mut queue = vec![
        entry(Category::Join, &a),
        entry(Category::Events, &b),
        entry(Category::Join, &c),
    ];
    let (persisted, _) = run(&mut queue, 2, &|_| true);
    assert_eq!(
        persisted,
        vec![(Category::Events, b), (Category::Join, a), (Category::Join, c)]
    );
}

#[test]
fn dead_letter_failed_destination_alone_goes_back() {
    let a = record("a");
    let b = record("b");
    let mut queue = vec![entry(Category::Events, &a), entry(Category::Guardian, &b)];
    let (persisted, _) = run(&mut queue, 2, &|n| n == 2);
    assert_eq!(persisted, vec![(Category::Guardian, b)]);
    assert_eq!(queue, vec![entry(Category::Events, &a)]);
}

#[test]
fn dead_letter_empty_queue_sleeps() {
    let mut queue: Vec<String> = Vec::new();
    let (persisted, sleeps) = run(&mut queue, 1, &|_| true);
    assert!(persisted.is_empty());
    assert_eq!(sleeps, 4);
}

#[test]
fn dead_letter_drops_undecodable() {
    let r = record("g3");
    let mut queue = vec!["??".to_string(), entry(Category::Events, &r)];
    let (persisted, _) = run(&mut queue, 1, &|_| true);
    assert_eq!(persisted, vec![(Category::Events, r)]);
    assert!(queue.is_empty());
}

#[test]
fn dead_letter_transport_failure_sleeps() {
    let (mut rp, _) = DeadLetterReprocessor::new(3);
    assert!(matches!(rp.step(ReprocessEvent::RangeFailed), ReprocessAction::Sleep { ms: 5000 }));
    assert!(matches!(rp.step(ReprocessEvent::Slept), ReprocessAction::ReadRange { stop: 2 }));
}
