use ram_purger::config::{AppConfig, default_check_updates};
use ram_purger::stats::MemoryStats;

#[test]
fn defaults() {
    let c = AppConfig::default();
    assert!(c.auto_purge_enabled);
    assert_eq!(c.threshold_bits, 20.0f32.to_bits());
    assert_eq!(c.interval_minutes, 30);
    assert_eq!(c.cooldown_seconds, 60);
    assert!(c.purge_working_sets && c.purge_standby_list && c.purge_modified_list && c.purge_system_cache);
    assert!(!c.start_minimized);
    assert!(c.notify_on_purge);
    assert!(c.check_updates_enabled);
    assert!(c.skipped_version.is_none());
    assert!(default_check_updates());
}

#[test]
fn nothing_stored_gives_defaults_to_save() {
    let (c, save) = AppConfig::from_stored(None);
    assert!(save);
    assert_eq!(c.threshold_bits, 20.0f32.to_bits());
    assert_eq!(c.interval_minutes, 30);
}

#[test]
fn stored_values_are_raised_to_minimums() {
    let mut stored = AppConfig::default();
    stored.threshold_bits = 10.0f32.to_bits();
    stored.interval_minutes = 1;
    stored.cooldown_seconds = 5;
    stored.skipped_version = Some("1.1.0".to_string());
    let (c, save) = AppConfig::from_stored(Some(stored));
    assert!(!save);
    assert_eq!(c.threshold_bits, 20.0f32.to_bits());
    assert_eq!(c.interval_minutes, 7);
    assert_eq!(c.cooldown_seconds, 30);
    assert_eq!(c.skipped_version.as_deref(), Some("1.1.0"));
}

#[test]
fn stored_values_above_minimums_are_kept() {
    let mut stored = AppConfig::default();
    stored.threshold_bits = 85.55f32.to_bits();
    stored.interval_minutes = 120;
    stored.cooldown_seconds = 300;
    let c = stored.with_minimums();
    assert_eq!((c.threshold_bits, c.interval_minutes, c.cooldown_seconds), (85.55f32.to_bits(), 120, 300));
    let again = c.with_minimums();
    assert_eq!((again.threshold_bits, again.interval_minutes, again.cooldown_seconds), (85.55f32.to_bits(), 120, 300));
}

#[test]
fn command_line_overrides_skip_minimums() {
    let mut c = AppConfig::default();
    c.apply_overrides(Some(5.0f32.to_bits()), Some(0));
    assert_eq!(c.threshold_bits, 5.0f32.to_bits());
    assert_eq!(c.interval_minutes, 0);
    c.apply_overrides(None, None);
    assert_eq!(c.threshold_bits, 5.0f32.to_bits());
    assert_eq!(c.interval_minutes, 0);
    assert_eq!(c.cooldown_seconds, 60);
}

#[test]
fn stats_from_system_status() {
    let s = MemoryStats::from_status(17179869184, 6442450944 + 100, 62);
    assert_eq!(s.total_bytes, 17179869184);
    assert_eq!(s.free_bytes, 6442450944 + 100);
    assert_eq!(s.used_bytes, 10737418240 - 100);
    assert_eq!(s.total_mb, 16384);
    assert_eq!(s.free_mb, 6144);
    assert_eq!(s.used_mb, 10240);
    assert_eq!(s.usage_percent, 62);
}

#[test]
fn stats_never_underflow() {
    let s = MemoryStats::from_status(1048576, 3145728, 0);
    assert_eq!(s.used_bytes, 0);
    assert_eq!(s.used_mb, 0);
    let z = MemoryStats::unavailable();
    assert_eq!(z, MemoryStats::from_status(0, 0, 0));
}

#[test]
fn stored_threshold_minimum_follows_f32_max() {
    for t in [f32::NAN, -f32::NAN, -1.0, -0.0, 0.0, 19.99, 20.0, 20.000002, 33.33, 98.0, f32::INFINITY, f32::NEG_INFINITY, 1e30, 1e-40] {
        let mut stored = AppConfig::default();
        stored.threshold_bits = t.to_bits();
        let c = stored.with_minimums();
        assert_eq!(c.threshold_bits, t.max(20.0).to_bits(), "threshold {}", t);
    }
}

#[test]
fn stored_threshold_survives_a_round_trip() {
    let mut stored = AppConfig::default();
    stored.threshold_bits = 33.33f32.to_bits();
    let (c, _) = AppConfig::from_stored(Some(stored));
    assert_eq!(f32::from_bits(c.threshold_bits), 33.33f32);
}
