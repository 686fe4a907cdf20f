use log_worker::tuning::{adjust_tuning, backlog_total, tier, tune_cycle, Tier};

#[test]
fn tuning_scenario_bands() {
    assert_eq!(adjust_tuning(50, 1000, 5), (500, 10));
    assert_eq!(adjust_tuning(5000, 1000, 5), (1000, 5));
    assert_eq!(adjust_tuning(50000, 1000, 5), (2000, 2));
    assert_eq!(adjust_tuning(500000, 1000, 5), (4000, 2));
}

#[test]
fn tuning_bounds_belong_to_lower_band() {
    assert_eq!(tier(0), Tier::Low);
    assert_eq!(tier(1000), Tier::Low);
    assert_eq!(tier(1001), Tier::Normal);
    assert_eq!(tier(10000), Tier::Normal);
    assert_eq!(tier(10001), Tier::High);
    assert_eq!(tier(100000), Tier::High);
    assert_eq!(tier(100001), Tier::Surge);
    assert_eq!(adjust_tuning(1000, 1000, 5), (500, 10));
    assert_eq!(adjust_tuning(10000, 1000, 5), (1000, 5));
    assert_eq!(adjust_tuning(100000, 1000, 5), (2000, 2));
}

#[test]
fn tuning_odd_bases_round_down() {
    assert_eq!(adjust_tuning(0, 1, 1), (0, 2));
    assert_eq!(adjust_tuning(200000, 3, 7), (12, 3));
}

#[test]
fn backlog_counts_failed_reads_as_zero() {
    assert_eq!(backlog_total(&vec![Some(10), None, Some(5)]), 15);
    assert_eq!(backlog_total(&vec![]), 0);
    assert_eq!(backlog_total(&vec![None, None]), 0);
}

#[test]
fn backlog_saturates() {
    assert_eq!(backlog_total(&vec![Some(usize::MAX), Some(1)]), usize::MAX);
}

#[test]
fn tune_cycle_sums_queues() {
    assert_eq!(tune_cycle(&vec![Some(600), None, Some(600)], 1000, 5), (1000, 5));
    assert_eq!(tune_cycle(&vec![Some(600), None, Some(400)], 1000, 5), (500, 10));
}

#[test]
fn tuning_large_base_in_middle_band() {
    assert_eq!(adjust_tuning(5000, usize::MAX, u64::MAX), (usize::MAX, u64::MAX));
}
