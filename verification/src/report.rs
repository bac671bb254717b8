//! Texts printed on the console and shown in the tray, and the choice of
//! what the program does from its command-line flags.

use vstd::prelude::*;
use crate::config::AppConfig;
use crate::dashboard::{join_with, join_strings};
use crate::purge::PurgeResult;
use crate::stats::MemoryStats;
use crate::text::{decimal, two_digits, push_decimal, push_two_digits, push_str};
use crate::units::{format_bytes, format_bytes_text};
use crate::updater::UpdateInfo;
use crate::percent::{as_f32, f32_one_decimal, f32_value_of, push_one_decimal};

verus! {

/// What a run of the program does.
#[derive(Debug, Clone, Copy, PartialEq, Eq, Structural)]
pub enum RunMode {
    CheckUpdate,
    PurgeNow,
    Status,
    Daemon,
    Gui,
}

/// The mode the flags select: checking for updates first, then an immediate
/// purge, then the status report, then the daemon; the dashboard otherwise.
pub fn select_mode(check_update: bool, purge_now: bool, status: bool, daemon: bool) -> (m: RunMode)
    ensures
        m == if check_update {
            RunMode::CheckUpdate
        } else if purge_now {
            RunMode::PurgeNow
        } else if status {
            RunMode::Status
        } else if daemon {
            RunMode::Daemon
        } else {
            RunMode::Gui
        },
{
    if check_update {
        RunMode::CheckUpdate
    } else if purge_now {
        RunMode::PurgeNow
    } else if status {
        RunMode::Status
    } else if daemon {
        RunMode::Daemon
    } else {
        RunMode::Gui
    }
}

/// A Unix time in seconds, as the daemon stamps its lines.
pub fn chrono_timestamp(now_secs: u64) -> (s: String)
    ensures
        s@ == decimal(now_secs as nat),
{
    let mut s = String::new();
    push_decimal(&mut s, now_secs);
    proof {
        assert(s@ =~= decimal(now_secs as nat));
    }
    s
}

/// The time of day (UTC) of a Unix time, as "HH:MM:SS".
pub open spec fn clock_text(now_secs: nat) -> Seq<char> {
    two_digits((now_secs / 3600) % 24) + seq![':'] + two_digits((now_secs / 60) % 60) + seq![':']
        + two_digits(now_secs % 60)
}

/// The time of day (UTC) of a Unix time, as "HH:MM:SS".
pub fn current_time_string(now_secs: u64) -> (s: String)
    ensures
        s@ == clock_text(now_secs as nat),
{
    let mut s = String::new();
    push_two_digits(&mut s, (now_secs / 3600) % 24);
    s.push(':');
    push_two_digits(&mut s, (now_secs / 60) % 60);
    s.push(':');
    push_two_digits(&mut s, now_secs % 60);
    proof {
        assert(s@ =~= clock_text(now_secs as nat));
    }
    s
}

/// A whole percentage taken as an `f32` (a whole number itself), with one
/// decimal, as `{:.1}` prints it.
pub open spec fn percent_one_decimal(p: nat) -> Seq<char> {
    decimal(as_f32(p)) + ".0"@
}

/// The tooltip of the tray icon.
pub open spec fn tooltip_text(stats: MemoryStats) -> Seq<char> {
    "RAM Purger - Usage: "@ + percent_one_decimal(stats.usage_percent as nat) + "% ("@
        + format_bytes_text(stats.used_bytes as nat) + " / "@ + format_bytes_text(
        stats.total_bytes as nat,
    ) + ")"@
}

/// The tooltip of the tray icon.
pub fn tray_tooltip(stats: &MemoryStats) -> (s: String)
    ensures
        s@ == tooltip_text(*stats),
{
    let mut s = String::from_str("RAM Purger - Usage: ");
    push_decimal(&mut s, f32_value_of(stats.usage_percent));
    push_str(&mut s, ".0");
    push_str(&mut s, "% (");
    push_str(&mut s, format_bytes(stats.used_bytes).as_str());
    push_str(&mut s, " / ");
    push_str(&mut s, format_bytes(stats.total_bytes).as_str());
    push_str(&mut s, ")");
    proof {
        assert(s@ =~= tooltip_text(*stats));
    }
    s
}

/// The load shown under the purge button.
pub fn usage_label(usage_percent: u32) -> (s: String)
    ensures
        s@ == percent_one_decimal(usage_percent as nat) + "% RAM"@,
{
    let mut s = String::new();
    push_decimal(&mut s, f32_value_of(usage_percent));
    push_str(&mut s, ".0");
    push_str(&mut s, "% RAM");
    proof {
        assert(s@ =~= percent_one_decimal(usage_percent as nat) + "% RAM"@);
    }
    s
}

/// `true` or `false`.
pub open spec fn bool_text(b: bool) -> Seq<char> {
    if b {
        "true"@
    } else {
        "false"@
    }
}


/// The lines of the status report: a JSON object with the memory figures and
/// the automatic-purge settings.
pub open spec fn status_lines(stats: MemoryStats, config: AppConfig) -> Seq<Seq<char>> {
    seq![
        "{"@,
        "  \"total_bytes\": "@ + decimal(stats.total_bytes as nat) + ","@,
        "  \"used_bytes\": "@ + decimal(stats.used_bytes as nat) + ","@,
        "  \"free_bytes\": "@ + decimal(stats.free_bytes as nat) + ","@,
        "  \"total_formatted\": \""@ + format_bytes_text(stats.total_bytes as nat) + "\","@,
        "  \"used_formatted\": \""@ + format_bytes_text(stats.used_bytes as nat) + "\","@,
        "  \"free_formatted\": \""@ + format_bytes_text(stats.free_bytes as nat) + "\","@,
        "  \"total_mb\": "@ + decimal(stats.total_mb as nat) + ","@,
        "  \"used_mb\": "@ + decimal(stats.used_mb as nat) + ","@,
        "  \"free_mb\": "@ + decimal(stats.free_mb as nat) + ","@,
        "  \"usage_percent\": "@ + decimal(as_f32(stats.usage_percent as nat)) + ".00,"@,
        "  \"auto_purge_enabled\": "@ + bool_text(config.auto_purge_enabled) + ","@,
        "  \"threshold_percent\": "@ + f32_one_decimal(config.threshold_bits) + ","@,
        "  \"interval_minutes\": "@ + decimal(config.interval_minutes as nat),
        "}"@,
    ]
}

fn labelled_number(label: &str, n: u64, tail: &str) -> (s: String)
    ensures
        s@ == label@ + decimal(n as nat) + tail@,
{
    let mut s = String::from_str(label);
    push_decimal(&mut s, n);
    push_str(&mut s, tail);
    proof {
        assert(s@ =~= label@ + decimal(n as nat) + tail@);
    }
    s
}

fn prefixed(label: &str, t: &str) -> (s: String)
    ensures
        s@ == label@ + t@,
{
    let mut s = String::from_str(label);
    push_str(&mut s, t);
    s
}

fn labelled_text(label: &str, t: &str, tail: &str) -> (s: String)
    ensures
        s@ == label@ + t@ + tail@,
{
    let mut s = String::from_str(label);
    push_str(&mut s, t);
    push_str(&mut s, tail);
    s
}

/// The lines of the status report.
pub fn status_report(stats: &MemoryStats, config: &AppConfig) -> (lines: Vec<String>)
    ensures
        lines.deep_view() == status_lines(*stats, *config),
{
    let mut lines: Vec<String> = Vec::new();
    lines.push(String::from_str("{"));
    lines.push(labelled_number("  \"total_bytes\": ", stats.total_bytes, ","));
    lines.push(labelled_number("  \"used_bytes\": ", stats.used_bytes, ","));
    lines.push(labelled_number("  \"free_bytes\": ", stats.free_bytes, ","));
    lines.push(
        labelled_text("  \"total_formatted\": \"", format_bytes(stats.total_bytes).as_str(), "\","),
    );
    lines.push(
        labelled_text("  \"used_formatted\": \"", format_bytes(stats.used_bytes).as_str(), "\","),
    );
    lines.push(
        labelled_text("  \"free_formatted\": \"", format_bytes(stats.free_bytes).as_str(), "\","),
    );
    lines.push(labelled_number("  \"total_mb\": ", stats.total_mb, ","));
    lines.push(labelled_number("  \"used_mb\": ", stats.used_mb, ","));
    lines.push(labelled_number("  \"free_mb\": ", stats.free_mb, ","));
    lines.push(labelled_number("  \"usage_percent\": ", f32_value_of(stats.usage_percent), ".00,"));
    let enabled = if config.auto_purge_enabled {
        "true"
    } else {
        "false"
    };
    lines.push(labelled_text("  \"auto_purge_enabled\": ", enabled, ","));
    let mut t = String::from_str("  \"threshold_percent\": ");
    push_one_decimal(&mut t, config.threshold_bits);
    push_str(&mut t, ",");
    lines.push(t);
    let mut last = String::from_str("  \"interval_minutes\": ");
    push_decimal(&mut last, config.interval_minutes);
    lines.push(last);
    lines.push(String::from_str("}"));
    proof {
        assert(lines.deep_view() =~= status_lines(*stats, *config));
    }
    lines
}

/// The lines printed after an immediate purge; the warnings line only when
/// some level failed.
pub open spec fn purge_report_lines(res: PurgeResult) -> Seq<Seq<char>> {
    let base = seq![
        "Initial RAM used : "@ + format_bytes_text(res.initial_used_bytes as nat),
        "Final RAM used   : "@ + format_bytes_text(res.final_used_bytes as nat),
        "RAM FREED        : "@ + format_bytes_text(res.bytes_freed as nat),
        "Processes trimmed: "@ + decimal(res.processes_trimmed as nat),
        "Levels executed  : "@ + join_with(res.levels_executed.deep_view(), ", "@),
    ];
    if res.errors@.len() == 0 {
        base
    } else {
        base.push("Warnings: "@ + join_with(res.errors.deep_view(), "; "@))
    }
}

/// The lines printed after an immediate purge.
pub fn purge_report(res: &PurgeResult) -> (lines: Vec<String>)
    ensures
        lines.deep_view() == purge_report_lines(*res),
        lines.len() == 5 + if res.errors.len() > 0 { 1int } else { 0int },
        res.errors.len() > 0 ==> lines@[5]@ == "Warnings: "@ + join_with(res.errors.deep_view(), "; "@),
{
    let mut lines: Vec<String> = Vec::new();
    lines.push(prefixed("Initial RAM used : ", format_bytes(res.initial_used_bytes).as_str()));
    lines.push(prefixed("Final RAM used   : ", format_bytes(res.final_used_bytes).as_str()));
    lines.push(prefixed("RAM FREED        : ", format_bytes(res.bytes_freed).as_str()));
    let mut p = String::from_str("Processes trimmed: ");
    push_decimal(&mut p, res.processes_trimmed as u64);
    lines.push(p);
    lines.push(
        prefixed("Levels executed  : ", join_strings(&res.levels_executed, ", ").as_str()),
    );
    if res.errors.len() > 0 {
        lines.push(prefixed("Warnings: ", join_strings(&res.errors, "; ").as_str()));
    }
    proof {
        assert(lines.deep_view() =~= purge_report_lines(*res));
    }
    lines
}

/// The line the daemon prints after an automatic purge at Unix time `now_secs`.
pub open spec fn daemon_line(now_secs: nat, res: PurgeResult) -> Seq<char> {
    "["@ + decimal(now_secs) + "] Auto-purge completed: Freed "@ + format_bytes_text(
        res.bytes_freed as nat,
    ) + " of RAM (Processes: "@ + decimal(res.processes_trimmed as nat) + ")"@
}

/// The line the daemon prints after an automatic purge at Unix time `now_secs`.
pub fn daemon_purge_line(now_secs: u64, res: &PurgeResult) -> (s: String)
    ensures
        s@ == daemon_line(now_secs as nat, *res),
{
    let mut s = String::from_str("[");
    push_str(&mut s, chrono_timestamp(now_secs).as_str());
    push_str(&mut s, "] Auto-purge completed: Freed ");
    push_str(&mut s, format_bytes(res.bytes_freed).as_str());
    push_str(&mut s, " of RAM (Processes: ");
    push_decimal(&mut s, res.processes_trimmed as u64);
    push_str(&mut s, ")");
    proof {
        assert(s@ =~= daemon_line(now_secs as nat, *res));
    }
    s
}

/// The lines printed by a console check for updates, given its outcome and
/// the installed version.
pub open spec fn update_check_lines(outcome: Result<Option<UpdateInfo>, String>, current: Seq<char>) -> Seq<Seq<char>> {
    match outcome {
        Ok(Some(info)) => seq![
            "New version available: v"@ + info.version@,
            "Release Notes:\n"@ + info.release_notes@,
        ],
        Ok(None) => seq!["RAM Purger Pro is up to date (v"@ + current + ")."@],
        Err(e) => seq!["Error checking updates: "@ + e@],
    }
}

/// The lines printed by a console check for updates.
pub fn update_check_report(outcome: &Result<Option<UpdateInfo>, String>, current_version: &str) -> (lines: Vec<String>)
    ensures
        lines.deep_view() == update_check_lines(*outcome, current_version@),
{
    let mut lines: Vec<String> = Vec::new();
    match outcome {
        Ok(Some(info)) => {
            lines.push(prefixed("New version available: v", info.version.as_str()));
            lines.push(prefixed("Release Notes:\n", info.release_notes.as_str()));
        },
        Ok(None) => {
            lines.push(labelled_text("RAM Purger Pro is up to date (v", current_version, ")."));
        },
        Err(e) => {
            lines.push(prefixed("Error checking updates: ", e.as_str()));
        },
    }
    proof {
        assert(lines.deep_view() =~= update_check_lines(*outcome, current_version@));
    }
    lines
}

/// The purge report has its five lines and, exactly when some level failed,
/// a sixth and last one that lists every failure.
pub proof fn lemma_warnings_exactly_on_failures(res: PurgeResult)
    ensures
        purge_report_lines(res).len() == 5 + if res.errors.len() > 0 { 1int } else { 0int },
        res.errors.len() > 0 ==> purge_report_lines(res).last() == "Warnings: "@ + join_with(
            res.errors.deep_view(),
            "; "@,
        ),
{
}

} // verus!
