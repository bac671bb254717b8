use ram_purger::config::AppConfig;
use ram_purger::monitor::{MonitorState, UpdateChoice, PromptAction, HISTORY_CAPACITY};
use ram_purger::purge::PurgeResult;
use ram_purger::stats::MemoryStats;
use ram_purger::updater::UpdateInfo;

const SEC: u64 = 1_000_000_000;

fn stats(load: u32) -> MemoryStats {
    MemoryStats::from_status(17179869184, 6442450944, load)
}

fn result(bytes: u64, mb: u64) -> PurgeResult {
    PurgeResult {
        initial_used_bytes: 0,
        final_used_bytes: 0,
        bytes_freed: bytes,
        initial_used_mb: 0,
        final_used_mb: 0,
        mb_freed: mb,
        processes_trimmed: 0,
        levels_executed: vec![],
        errors: vec![],
    }
}

#[test]
fn new_monitor_holds_one_point() {
    let m = MonitorState::new(AppConfig::default(), stats(40));
    assert_eq!(m.history.len(), 1);
    assert_eq!(m.history[0].timestamp_secs, 0);
    assert_eq!(m.history[0].usage_percent, 40);
    assert_eq!(m.history[0].used_mb, 10240);
    assert!(m.last_purge_time.is_none());
    assert_eq!(m.total_freed_mb_session, 0);
}

#[test]
fn threshold_triggers_purge() {
    let mut c = AppConfig::default();
    c.threshold_bits = 80.0f32.to_bits();
    let mut m = MonitorState::new(c, stats(40));
    assert!(!m.update(stats(79), 100, SEC));
    assert!(m.update(stats(80), 101, 2 * SEC));
    assert_eq!(m.last_stats.usage_percent, 80);
    assert_eq!(m.history.len(), 3);
    assert_eq!(m.history[2].timestamp_secs, 101);
}

#[test]
fn fractional_threshold() {
    let mut c = AppConfig::default();
    c.threshold_bits = 75.5f32.to_bits();
    let mut m = MonitorState::new(c, stats(40));
    assert!(!m.update(stats(75), 1, SEC));
    assert!(m.update(stats(76), 2, 2 * SEC));
}

#[test]
fn disabled_monitor_never_purges() {
    let mut c = AppConfig::default();
    c.auto_purge_enabled = false;
    let mut m = MonitorState::new(c, stats(40));
    assert!(!m.update(stats(100), 1, SEC));
}

#[test]
fn cooldown_blocks_and_threshold_decides() {
    let mut c = AppConfig::default();
    c.threshold_bits = 90.0f32.to_bits();
    c.cooldown_seconds = 60;
    c.interval_minutes = 30;
    let mut m = MonitorState::new(c, stats(40));
    assert!(!m.update(stats(10), 1, 3600 * SEC));
    m.force_purge(result(2048, 2), stats(30), 100 * SEC);
    assert_eq!(m.last_purge_time, Some(100 * SEC));
    assert_eq!(m.total_freed_mb_session, 2);
    assert_eq!(m.total_freed_bytes_session, 2048);
    assert_eq!(m.last_stats.usage_percent, 30);
    // within the cooldown even a full load waits
    assert!(!m.update(stats(95), 2, 159 * SEC));
    // after the cooldown the load decides
    assert!(m.update(stats(95), 3, 160 * SEC));
    m.force_purge(result(1, 3), stats(30), 200 * SEC);
    assert_eq!(m.total_freed_mb_session, 5);
    assert_eq!(m.total_freed_bytes_session, 2049);
}

#[test]
fn load_below_threshold_never_purges() {
    // default settings: threshold 20 %, interval 30 min, cooldown 60 s
    let mut m = MonitorState::new(AppConfig::default(), stats(40));
    m.force_purge(result(0, 0), stats(30), 0);
    assert!(!m.update(stats(10), 1, 31 * 60 * SEC));
    assert!(!m.update(stats(19), 2, 1_000_000 * SEC));
    assert!(m.update(stats(20), 3, 1_000_000 * SEC));
}

#[test]
fn huge_interval_changes_nothing() {
    let mut c = AppConfig::default();
    c.threshold_bits = 90.0f32.to_bits();
    c.interval_minutes = u64::MAX;
    let mut m = MonitorState::new(c, stats(40));
    m.force_purge(result(0, 0), stats(30), 0);
    assert!(!m.update(stats(10), 1, 3600 * SEC));
    assert!(m.update(stats(95), 2, 3600 * SEC));
}

#[test]
fn history_keeps_last_sixty_points() {
    let mut c = AppConfig::default();
    c.auto_purge_enabled = false;
    let mut m = MonitorState::new(c, stats(40));
    for i in 1..=70u64 {
        m.update(stats(40), i, i * SEC);
    }
    assert_eq!(m.history.len(), HISTORY_CAPACITY);
    assert_eq!(m.history[0].timestamp_secs, 11);
    assert_eq!(m.history[HISTORY_CAPACITY - 1].timestamp_secs, 70);
}

fn offer() -> UpdateInfo {
    UpdateInfo {
        version: "1.3.0".to_string(),
        release_notes: String::new(),
        download_url: "https://example.invalid/ram-pro.exe".to_string(),
    }
}

#[test]
fn update_check_bookkeeping() {
    let mut m = MonitorState::new(AppConfig::default(), stats(40));
    m.begin_update_check();
    assert!(m.is_checking_update);
    m.finish_update_check(Err("offline".to_string()));
    assert!(!m.is_checking_update);
    assert_eq!(m.update_error.as_deref(), Some("offline"));
    m.begin_update_check();
    assert!(m.update_error.is_none());
    m.finish_update_check(Ok(Some(offer())));
    assert_eq!(m.pending_update.as_ref().map(|i| i.version.clone()), Some("1.3.0".to_string()));
}

#[test]
fn update_prompt_answers() {
    let mut m = MonitorState::new(AppConfig::default(), stats(40));
    assert!(matches!(m.resolve_update_prompt(UpdateChoice::Install), PromptAction::Nothing));
    m.pending_update = Some(offer());
    match m.resolve_update_prompt(UpdateChoice::Install) {
        PromptAction::Download(url) => assert_eq!(url, "https://example.invalid/ram-pro.exe"),
        _ => panic!("expected a download"),
    }
    assert!(m.pending_update.is_none());
    m.pending_update = Some(offer());
    assert!(matches!(m.resolve_update_prompt(UpdateChoice::Skip), PromptAction::SaveConfig));
    assert_eq!(m.config.skipped_version.as_deref(), Some("1.3.0"));
    m.pending_update = Some(offer());
    assert!(matches!(m.resolve_update_prompt(UpdateChoice::Later), PromptAction::Nothing));
    assert!(m.pending_update.is_none());
}

#[test]
fn threshold_follows_f32_comparison() {
    let thresholds = [f32::NAN, -5.0, -0.0, 0.0, 0.5, 19.99, 20.0, 33.33, 50.0, 99.9, 100.0, 100.1, f32::INFINITY, f32::NEG_INFINITY, 1e-40, 4294967296.0, 1e30];
    let loads = [0u32, 1, 20, 33, 34, 50, 99, 100, 101, 16777217, u32::MAX];
    for t in thresholds {
        for u in loads {
            let mut c = AppConfig::default();
            c.threshold_bits = t.to_bits();
            c.cooldown_seconds = 0;
            let mut m = MonitorState::new(c, stats(0));
            let due = m.update(stats(u), 1, SEC);
            assert_eq!(due, (u as f32) >= t, "load {} threshold {}", u, t);
        }
    }
}
