use ram_purger::config::AppConfig;
use ram_purger::purge::{
    next_open_step, OpenStep, ProcessAccess,
    purge_plan, summarize_purge, next_retry_step, system_cache_result, is_trimmable_process,
    enable_all_privileges, standby_list_commands, modified_list_commands, nt_error_message,
    level_commands, LevelOutcome, PurgeLevel, Privilege, RetryStep,
};
use ram_purger::stats::MemoryStats;
use std::cell::RefCell;

#[test]
fn plan_follows_fixed_order() {
    let c = AppConfig::default();
    assert_eq!(
        purge_plan(&c),
        vec![PurgeLevel::WorkingSets, PurgeLevel::StandbyList, PurgeLevel::ModifiedList, PurgeLevel::SystemCache]
    );
    let mut c2 = AppConfig::default();
    c2.purge_working_sets = false;
    c2.purge_modified_list = false;
    assert_eq!(purge_plan(&c2), vec![PurgeLevel::StandbyList, PurgeLevel::SystemCache]);
    let mut c3 = AppConfig::default();
    c3.purge_working_sets = false;
    c3.purge_standby_list = false;
    c3.purge_modified_list = false;
    c3.purge_system_cache = false;
    assert!(purge_plan(&c3).is_empty());
}

#[test]
fn summary_of_a_run() {
    let plan = purge_plan(&AppConfig::default());
    let outcomes = vec![
        LevelOutcome::Trimmed(42),
        LevelOutcome::Completed,
        LevelOutcome::Failed("Error NtSetSystemInformation (Modified): 0xC0000061".to_string()),
        LevelOutcome::Completed,
    ];
    let before = MemoryStats::from_status(17179869184, 6442450944, 62);
    let after = MemoryStats::from_status(17179869184, 8589934592, 50);
    let r = summarize_purge(&plan, &outcomes, before, after);
    assert_eq!(r.levels_executed, vec!["Process Working Sets (42)", "Standby Memory List", "System File Cache"]);
    assert_eq!(r.errors, vec!["Error NtSetSystemInformation (Modified): 0xC0000061"]);
    assert_eq!(r.processes_trimmed, 42);
    assert_eq!(r.initial_used_bytes, 10737418240);
    assert_eq!(r.final_used_bytes, 8589934592);
    assert_eq!(r.bytes_freed, 2147483648);
    assert_eq!(r.initial_used_mb, 10240);
    assert_eq!(r.final_used_mb, 8192);
    assert_eq!(r.mb_freed, 2048);
    // every planned level is accounted for once
    assert_eq!(r.levels_executed.len() + r.errors.len(), plan.len());
}

#[test]
fn freed_memory_saturates_at_zero() {
    let plan = vec![PurgeLevel::StandbyList];
    let outcomes = vec![LevelOutcome::Completed];
    let before = MemoryStats::from_status(17179869184, 8589934592, 50);
    let after = MemoryStats::from_status(17179869184, 6442450944, 62);
    let r = summarize_purge(&plan, &outcomes, before, after);
    assert_eq!(r.bytes_freed, 0);
    assert_eq!(r.mb_freed, 0);
    assert_eq!(r.processes_trimmed, 0);
    assert_eq!(r.levels_executed, vec!["Standby Memory List"]);
}

#[test]
fn command_lists() {
    assert_eq!(standby_list_commands(), vec![4, 8, 3]);
    assert_eq!(modified_list_commands(), vec![3]);
}

#[test]
fn retry_issues_commands_in_order() {
    let cmds = standby_list_commands();
    assert!(matches!(next_retry_step("Standby", &cmds, &vec![]), RetryStep::Issue(4)));
    assert!(matches!(next_retry_step("Standby", &cmds, &vec![-1]), RetryStep::Issue(8)));
    assert!(matches!(next_retry_step("Standby", &cmds, &vec![-1, -1]), RetryStep::Issue(3)));
}

#[test]
fn retry_stops_at_first_success() {
    let cmds = standby_list_commands();
    assert!(matches!(next_retry_step("Standby", &cmds, &vec![0]), RetryStep::Finished(Ok(()))));
    assert!(matches!(next_retry_step("Standby", &cmds, &vec![-5, 1]), RetryStep::Finished(Ok(()))));
}

#[test]
fn retry_reports_last_failure() {
    let cmds = modified_list_commands();
    assert!(matches!(next_retry_step("Modified", &cmds, &vec![]), RetryStep::Issue(3)));
    match next_retry_step("Modified", &cmds, &vec![-1073741790]) {
        RetryStep::Finished(Err(m)) => assert_eq!(m, "Error NtSetSystemInformation (Modified): 0xC0000022"),
        _ => panic!("expected a failure"),
    }
    let standby = standby_list_commands();
    match next_retry_step("Standby", &standby, &vec![-1, -2, -3]) {
        RetryStep::Finished(Err(m)) => assert_eq!(m, "Error NtSetSystemInformation (Standby): 0xFFFFFFFD"),
        _ => panic!("expected a failure"),
    }
}

#[test]
fn retry_without_commands_fails_with_zero() {
    match next_retry_step("Standby", &vec![], &vec![]) {
        RetryStep::Finished(Err(m)) => assert_eq!(m, "Error NtSetSystemInformation (Standby): 0x0"),
        _ => panic!("expected a failure"),
    }
}

#[test]
fn system_cache_outcomes() {
    assert!(system_cache_result(0).is_ok());
    assert!(system_cache_result(7).is_ok());
    assert_eq!(
        system_cache_result(-1073741727),
        Err("Error NtSetSystemInformation (SystemCache): 0xC0000061".to_string())
    );
    assert_eq!(nt_error_message("X", 255), "Error NtSetSystemInformation (X): 0xFF");
}

#[test]
fn trimmable_processes() {
    assert!(!is_trimmable_process(0));
    assert!(!is_trimmable_process(4));
    assert!(is_trimmable_process(5));
    assert!(is_trimmable_process(u32::MAX));
}

#[test]
fn privileges_are_requested_in_order() {
    let asked = RefCell::new(Vec::new());
    let granted = enable_all_privileges(|p: Privilege| {
        asked.borrow_mut().push(p.name().to_string());
        p != Privilege::IncreaseQuota
    });
    assert_eq!(granted, vec![true, true, false, true]);
    assert_eq!(
        asked.into_inner(),
        vec![
            "SeDebugPrivilege",
            "SeProfileSingleProcessPrivilege",
            "SeIncreaseQuotaPrivilege",
            "SeSystemProfilePrivilege"
        ]
    );
}

#[test]
fn commands_of_each_level() {
    let (label, cmds) = level_commands(PurgeLevel::StandbyList).unwrap();
    assert_eq!((label, cmds), ("Standby", vec![4, 8, 3]));
    let (label, cmds) = level_commands(PurgeLevel::ModifiedList).unwrap();
    assert_eq!((label, cmds), ("Modified", vec![3]));
    assert!(level_commands(PurgeLevel::WorkingSets).is_none());
    assert!(level_commands(PurgeLevel::SystemCache).is_none());
}

#[test]
fn process_open_attempts_in_order() {
    assert_eq!(next_open_step(0, false), OpenStep::Open(ProcessAccess::QueryAndSetQuota));
    assert_eq!(next_open_step(1, false), OpenStep::Open(ProcessAccess::SetQuota));
    assert_eq!(next_open_step(2, false), OpenStep::Open(ProcessAccess::All));
    assert_eq!(next_open_step(3, false), OpenStep::Skip);
    assert_eq!(next_open_step(9, false), OpenStep::Skip);
    assert_eq!(next_open_step(0, true), OpenStep::Trim);
    assert_eq!(next_open_step(2, true), OpenStep::Trim);
}
