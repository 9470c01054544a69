use telegram_drive::bandwidth::{format_bytes_string, BandwidthManager, BandwidthStats};
use telegram_drive::errors::DriveError;

#[test]
fn quota_ceiling_scenario() {
    // Ceiling 10 bytes, 8 already used: 3 more is rejected with the would-be
    // total, 2 more fits exactly.
    let mut m = BandwidthManager::new(
        BandwidthStats { date: "2024-05-01".to_string(), up_bytes: 8, down_bytes: 0 },
        10,
    );
    let rejected = m.can_transfer(3, "2024-05-01");
    assert_eq!(rejected, Err(DriveError::QuotaExceeded { limit: 10, attempted: 11 }));
    let allowed = m.can_transfer(2, "2024-05-01");
    assert_eq!(allowed, Ok(()));
}

#[test]
fn permitted_transfer_never_overshoots() {
    let mut m = BandwidthManager::new(
        BandwidthStats { date: "2024-05-01".to_string(), up_bytes: 6, down_bytes: 2 },
        10,
    );
    assert!(m.can_transfer(2, "2024-05-01").is_ok());
    m.add_up(2, "2024-05-01");
    assert!(m.stats.up_bytes + m.stats.down_bytes <= m.limit);
    assert_eq!(m.stats.up_bytes, 8);
    assert_eq!(m.stats.down_bytes, 2);
}

#[test]
fn rollover_resets_counters_exactly_once() {
    let mut m = BandwidthManager::new(
        BandwidthStats { date: "2024-04-30".to_string(), up_bytes: 5, down_bytes: 7 },
        100,
    );
    let first = m.check_and_reset("2024-05-01");
    assert!(first);
    assert_eq!(m.stats.date, "2024-05-01");
    assert_eq!(m.stats.up_bytes, 0);
    assert_eq!(m.stats.down_bytes, 0);
    let second = m.check_and_reset("2024-05-01");
    assert!(!second);
    assert_eq!(m.stats.date, "2024-05-01");
    assert_eq!(m.stats.up_bytes, 0);
    assert_eq!(m.stats.down_bytes, 0);
}

#[test]
fn add_up_and_add_down_accumulate() {
    let mut m = BandwidthManager::new(
        BandwidthStats { date: "2024-05-01".to_string(), up_bytes: 0, down_bytes: 0 },
        1000,
    );
    m.add_up(10, "2024-05-01");
    m.add_down(20, "2024-05-01");
    m.add_up(5, "2024-05-01");
    let s = m.get_stats("2024-05-01");
    assert_eq!(s.up_bytes, 15);
    assert_eq!(s.down_bytes, 20);
    assert_eq!(s.date, "2024-05-01");
}

#[test]
fn add_after_rollover_counts_from_zero() {
    let mut m = BandwidthManager::new(
        BandwidthStats { date: "2024-04-30".to_string(), up_bytes: 999, down_bytes: 999 },
        1000,
    );
    m.add_down(7, "2024-05-01");
    assert_eq!(m.stats.up_bytes, 0);
    assert_eq!(m.stats.down_bytes, 7);
    assert_eq!(m.stats.date, "2024-05-01");
}

#[test]
fn get_stats_applies_the_date_check() {
    let mut m = BandwidthManager::new(
        BandwidthStats { date: "2024-04-30".to_string(), up_bytes: 1, down_bytes: 2 },
        1000,
    );
    let s = m.get_stats("2024-05-01");
    assert_eq!(s.date, "2024-05-01");
    assert_eq!(s.up_bytes, 0);
    assert_eq!(s.down_bytes, 0);
}

#[test]
fn format_bytes_scales_by_1024() {
    assert_eq!(format_bytes_string(0), "0.00 B");
    assert_eq!(format_bytes_string(1023), "1023.00 B");
    assert_eq!(format_bytes_string(1024), "1.00 KB");
    assert_eq!(format_bytes_string(1536), "1.50 KB");
    assert_eq!(format_bytes_string(1024 * 1024), "1.00 MB");
    assert_eq!(format_bytes_string(250 * 1024 * 1024 * 1024), "250.00 GB");
    assert_eq!(format_bytes_string(3 * 1024 * 1024 * 1024 * 1024), "3.00 TB");
}

#[test]
fn format_bytes_rounds_to_the_nearest_hundredth() {
    // 1535 / 1024 = 1.4990...: rounds up, not down.
    assert_eq!(format_bytes_string(1535), "1.50 KB");
    // 1132 / 1024 = 1.1054...: rounds down.
    assert_eq!(format_bytes_string(1132), "1.11 KB");
    // Exact halves go to the even neighbour: 1152 / 1024 = 1.125 and
    // 1408 / 1024 = 1.375.
    assert_eq!(format_bytes_string(1152), "1.12 KB");
    assert_eq!(format_bytes_string(1408), "1.38 KB");
}

#[test]
fn format_bytes_method_matches_the_free_function() {
    let m = BandwidthManager::new(
        BandwidthStats { date: "2024-05-01".to_string(), up_bytes: 0, down_bytes: 0 },
        10,
    );
    assert_eq!(m.format_bytes(1536), "1.50 KB");
    assert_eq!(m.format_bytes(1536), format_bytes_string(1536));
}

#[test]
fn quota_error_message_uses_scaled_units() {
    let e = DriveError::QuotaExceeded { limit: 10, attempted: 11 };
    assert_eq!(e.message(), "Daily bandwidth limit (10.00 B) exceeded! Used: 11.00 B");
}
