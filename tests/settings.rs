use log_worker::config::{Category, Config, DEAD_LETTER_QUEUE};
use log_worker::flush::FlushError;
use log_worker::metrics::Metrics;
use log_worker::retry::RetryPolicy;

#[test]
fn config_defaults() {
    let c = Config::with_defaults(None, None, None, None, None, None);
    assert_eq!(c.redis_url, "redis://127.0.0.1/");
    assert_eq!(c.mongo_url, "mongodb://127.0.0.1:27017");
    assert_eq!(c.mongo_db, "discord_logs");
    assert_eq!(c.metrics_port, 8080);
    assert_eq!(c.flush_interval, 5);
    assert_eq!(c.batch_size, 1000);
}

#[test]
fn config_given_values_win() {
    let c = Config::with_defaults(
        Some("redis://r/".to_string()),
        Some("mongodb://m".to_string()),
        Some("db".to_string()),
        Some(9000),
        Some(7),
        Some(50),
    );
    assert_eq!(c.redis_url, "redis://r/");
    assert_eq!(c.mongo_url, "mongodb://m");
    assert_eq!(c.mongo_db, "db");
    assert_eq!(c.metrics_port, 9000);
    assert_eq!(c.flush_interval, 7);
    assert_eq!(c.batch_size, 50);
}

#[test]
fn categories_map_to_queues_and_collections() {
    assert_eq!(Category::Events.queue(), "logs:events");
    assert_eq!(Category::Guardian.queue(), "logs:guardian");
    assert_eq!(Category::Join.queue(), "logs:join");
    assert_eq!(Category::Events.collection(), "events");
    assert_eq!(Category::Guardian.collection(), "guardianLogs");
    assert_eq!(Category::Join.collection(), "joinLogs");
    assert_eq!(Category::Events.ttl_field(), "loggedAt");
    assert_eq!(Category::Join.ttl_field(), "createdAt");
    assert_eq!(Category::Events.ttl_seconds(), 1_209_600);
    assert_eq!(Category::Join.ttl_seconds(), 259_200);
    assert_eq!(Category::all().len(), 3);
    assert_eq!(DEAD_LETTER_QUEUE, "logs:failed");
    for c in Category::all() {
        assert_eq!(Category::from_tag(c.tag()), Some(c));
    }
    assert_eq!(Category::Events.tag(), b'e');
    assert_eq!(Category::from_tag(b'x'), None);
}

#[test]
fn metrics_count_flushes_and_errors() {
    let mut m = Metrics::default();
    m.record_flush(Category::Events, Ok(3), 10);
    m.record_flush(Category::Guardian, Ok(2), 11);
    m.record_flush(Category::Join, Ok(0), 12);
    m.record_flush(Category::Events, Err(FlushError::InsertFailed("down".to_string())), 13);
    assert_eq!(m.events_flushed, 3);
    assert_eq!(m.guardian_flushed, 2);
    assert_eq!(m.last_flush_ts, 11);
    assert_eq!(m.errors, 1);
    m.record_backlog(Some(40), None);
    assert_eq!(m.queue_events, 40);
    assert_eq!(m.queue_guardian, 0);
}

#[test]
fn metrics_saturate() {
    let mut m = Metrics::default();
    m.record_flush(Category::Events, Ok(usize::MAX), 1);
    m.record_flush(Category::Events, Ok(5), 2);
    assert_eq!(m.events_flushed, usize::MAX);
}

#[test]
fn retry_delays_double() {
    let p = RetryPolicy::standard();
    let mut s = p.start();
    assert_eq!(s.on_failure(&p), Some(100));
    assert_eq!(s.on_failure(&p), Some(200));
    assert_eq!(s.on_failure(&p), Some(400));
    assert_eq!(s.on_failure(&p), Some(800));
    assert_eq!(s.on_failure(&p), None);
    assert_eq!(s.failures, 5);
}

#[test]
fn retry_delay_saturates() {
    let p = RetryPolicy { initial_delay_ms: u64::MAX - 1, max_attempts: 4 };
    let mut s = p.start();
    assert_eq!(s.on_failure(&p), Some(u64::MAX - 1));
    assert_eq!(s.on_failure(&p), Some(u64::MAX));
    assert_eq!(s.on_failure(&p), Some(u64::MAX));
    assert_eq!(s.on_failure(&p), None);
}
