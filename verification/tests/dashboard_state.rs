use ram_purger::dashboard::{
    menu_entries, join_strings, history_summary, CurrentScreen, Dashboard, PurgeRecord, NavAction,
};
use ram_purger::purge::PurgeResult;
use ram_purger::icon::default_icon_rgba;

fn result(bytes: u64, procs: usize) -> PurgeResult {
    PurgeResult {
        initial_used_bytes: 0,
        final_used_bytes: 0,
        bytes_freed: bytes,
        initial_used_mb: 0,
        final_used_mb: 0,
        mb_freed: bytes / 1048576,
        processes_trimmed: procs,
        levels_executed: vec!["Standby Memory List".to_string(), "System File Cache".to_string()],
        errors: vec![],
    }
}

#[test]
fn back_navigation() {
    assert_eq!(CurrentScreen::Home.back_target(), None);
    assert_eq!(CurrentScreen::Menu.back_target(), Some(CurrentScreen::Home));
    for s in [CurrentScreen::Settings, CurrentScreen::History, CurrentScreen::Stats, CurrentScreen::About] {
        assert_eq!(s.back_target(), Some(CurrentScreen::Menu));
    }
    let mut d = Dashboard::new();
    d.current_screen = CurrentScreen::Stats;
    d.go_back();
    assert_eq!(d.current_screen, CurrentScreen::Menu);
    d.go_back();
    assert_eq!(d.current_screen, CurrentScreen::Home);
    d.go_back();
    assert_eq!(d.current_screen, CurrentScreen::Home);
}

#[test]
fn menu_lists_pages() {
    let m = menu_entries();
    assert_eq!(
        m,
        vec![
            ("PURGE CONFIGURATION", CurrentScreen::Settings),
            ("RESULT HISTORY", CurrentScreen::History),
            ("MEMORY STATISTICS", CurrentScreen::Stats),
            ("ABOUT RAM PURGER", CurrentScreen::About),
        ]
    );
}

#[test]
fn joining() {
    assert_eq!(join_strings(&vec![], ", "), "");
    assert_eq!(join_strings(&vec!["a".to_string()], ", "), "a");
    assert_eq!(join_strings(&vec!["a".to_string(), "b".to_string(), "c".to_string()], ", "), "a, b, c");
}

#[test]
fn record_from_result() {
    let r = PurgeRecord::from_result(&result(3145728, 9), "12:00:00".to_string());
    assert_eq!(r.time_str, "12:00:00");
    assert_eq!(r.bytes_freed, 3145728);
    assert_eq!(r.mb_freed, 3);
    assert_eq!(r.processes, 9);
    assert_eq!(r.levels, "Standby Memory List, System File Cache");
}

#[test]
fn summary_of_history() {
    let s = history_summary(&vec![]);
    assert_eq!((s.count, s.max_freed, s.avg_freed), (0, 0, 0));
    let recs: Vec<PurgeRecord> = [100u64, 300, 201]
        .iter()
        .map(|b| PurgeRecord::from_result(&result(*b, 1), String::new()))
        .collect();
    let s = history_summary(&recs);
    assert_eq!((s.count, s.max_freed, s.avg_freed), (3, 300, 200));
    assert!(s.avg_freed <= s.max_freed);
}

#[test]
fn purges_update_status_and_history() {
    let mut d = Dashboard::new();
    assert!(d.status_message.is_none());
    d.record_purge(&result(1536, 7), "10:00:00".to_string(), 5_000_000_000, false);
    assert_eq!(d.status_message.as_deref(), Some("Freed 1.50 KB (Processes: 7)"));
    assert_eq!(d.purge_history.len(), 1);
    d.record_purge(&result(2048, 1), "10:01:00".to_string(), 6_000_000_000, true);
    assert_eq!(d.status_message.as_deref(), Some("Auto-purge: 2.00 KB freed"));
    assert_eq!(d.purge_history[1].time_str, "10:01:00");
    d.clear_history();
    assert!(d.purge_history.is_empty());
    assert_eq!(d.status_message.as_deref(), Some("Auto-purge: 2.00 KB freed"));
}

#[test]
fn purge_button_animation() {
    let mut d = Dashboard::new();
    assert!(!d.is_animating(0));
    assert_eq!(d.purge_button_label(0), "PURGE");
    d.record_purge(&result(0, 0), String::new(), 1_000_000_000, false);
    assert!(d.is_animating(1_000_000_000));
    assert!(d.is_animating(1_799_999_999));
    assert_eq!(d.purge_button_label(1_500_000_000), "PURGING...");
    assert!(!d.is_animating(1_800_000_000));
    assert_eq!(d.purge_button_label(1_800_000_000), "PURGE");
    assert!(d.is_animating(0));
}

fn pixel(rgba: &[u8], x: usize, y: usize) -> [u8; 4] {
    let i = (y * 32 + x) * 4;
    [rgba[i], rgba[i + 1], rgba[i + 2], rgba[i + 3]]
}

#[test]
fn icon_pixels() {
    let rgba = default_icon_rgba();
    assert_eq!(rgba.len(), 4096);
    let ring = [0, 210, 255, 255];
    let disc = [15, 23, 42, 240];
    let clear = [0, 0, 0, 0];
    assert_eq!(pixel(&rgba, 16, 16), disc);
    assert_eq!(pixel(&rgba, 0, 0), clear);
    assert_eq!(pixel(&rgba, 30, 16), ring);
    assert_eq!(pixel(&rgba, 2, 16), ring);
    assert_eq!(pixel(&rgba, 31, 16), clear);
    assert_eq!(pixel(&rgba, 27, 16), disc);
    assert_eq!(pixel(&rgba, 28, 16), ring);
    assert_eq!(pixel(&rgba, 24, 24), ring);
    assert_eq!(pixel(&rgba, 23, 24), disc);
}

#[test]
fn navigation_controls() {
    let mut d = Dashboard::new();
    d.navigate(NavAction::Back);
    assert_eq!(d.current_screen, CurrentScreen::Home);
    d.navigate(NavAction::RamCard);
    assert_eq!(d.current_screen, CurrentScreen::Home);
    d.navigate(NavAction::OpenMenu);
    assert_eq!(d.current_screen, CurrentScreen::Menu);
    d.navigate(NavAction::OpenMenu);
    assert_eq!(d.current_screen, CurrentScreen::Menu);
    d.navigate(NavAction::Open(CurrentScreen::Home));
    assert_eq!(d.current_screen, CurrentScreen::Menu);
    d.navigate(NavAction::Open(CurrentScreen::History));
    assert_eq!(d.current_screen, CurrentScreen::History);
    d.navigate(NavAction::Open(CurrentScreen::Settings));
    assert_eq!(d.current_screen, CurrentScreen::History);
    d.navigate(NavAction::Back);
    assert_eq!(d.current_screen, CurrentScreen::Menu);
    d.navigate(NavAction::RamCard);
    assert_eq!(d.current_screen, CurrentScreen::Stats);
    d.navigate(NavAction::Back);
    d.navigate(NavAction::Back);
    assert_eq!(d.current_screen, CurrentScreen::Home);
}

#[test]
fn purges_in_one_frame_extend_history() {
    let mut d = Dashboard::new();
    d.record_purge(&result(100, 1), "09:00:00".to_string(), 1, false);
    d.record_purge(&result(200, 2), "09:30:00".to_string(), 2, true);
    let before: Vec<(String, u64)> =
        d.purge_history.iter().map(|r| (r.time_str.clone(), r.bytes_freed)).collect();
    d.record_purge(&result(300, 3), "10:00:00".to_string(), 3, false);
    d.record_purge(&result(400, 4), "10:00:01".to_string(), 4, true);
    d.record_purge(&result(500, 5), "10:00:02".to_string(), 5, true);
    assert_eq!(d.purge_history.len(), before.len() + 3);
    for (i, (t, b)) in before.iter().enumerate() {
        assert_eq!(&d.purge_history[i].time_str, t);
        assert_eq!(d.purge_history[i].bytes_freed, *b);
    }
    assert_eq!(d.purge_history[4].bytes_freed, 500);
    d.clear_history();
    assert!(d.purge_history.is_empty());
}
