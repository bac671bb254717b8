//! The automatic-purge monitor: a rolling usage history and the rule that
//! decides, at each tick, whether a purge is due.

use vstd::prelude::*;
use crate::config::AppConfig;
use crate::percent::{nat_reaches, as_f32, reaches_threshold};
use crate::purge::PurgeResult;
use crate::stats::{MemoryStats, saturating_diff};
use crate::updater::UpdateInfo;

verus! {

/// Points kept in the usage history.
pub const HISTORY_CAPACITY: usize = 60;
/// Nanoseconds in a second.
pub const NANOS_PER_SEC: u64 = 1_000_000_000;

/// One point of the usage history.
#[derive(Debug, Clone, Copy, PartialEq, Eq, Structural)]
pub struct RamDataPoint {
    pub timestamp_secs: u64,
    pub usage_percent: u32,
    pub used_mb: u64,
}

/// The history point that a snapshot taken at `timestamp_secs` gives.
pub open spec fn data_point(timestamp_secs: u64, stats: MemoryStats) -> RamDataPoint {
    RamDataPoint { timestamp_secs, usage_percent: stats.usage_percent, used_mb: stats.used_mb }
}

/// The history after recording `p`: the oldest point leaves once the history is full.
pub open spec fn recorded(history: Seq<RamDataPoint>, p: RamDataPoint) -> Seq<RamDataPoint> {
    if history.len() >= HISTORY_CAPACITY {
        history.drop_first().push(p)
    } else {
        history.push(p)
    }
}

/// At least `secs` seconds separate the monotonic instants `since` and `now`
/// (given in nanoseconds; an instant after `now` counts as no time at all).
pub open spec fn at_least_secs(now: u64, since: u64, secs: nat) -> bool {
    saturating_diff(now as nat, since as nat) >= secs * NANOS_PER_SEC
}

/// The cooldown since the last purge has run out, or there was no purge yet.
pub open spec fn cooldown_passed(c: AppConfig, last_purge: Option<u64>, now: u64) -> bool {
    match last_purge {
        None => true,
        Some(t) => at_least_secs(now, t, c.cooldown_seconds as nat),
    }
}

/// The memory load, taken as an `f32`, has reached the threshold.
pub open spec fn usage_reached(c: AppConfig, usage_percent: u32) -> bool {
    nat_reaches(as_f32(usage_percent as nat), c.threshold_bits)
}

/// A purge is due: automatic purging is on, the cooldown has run out, and the
/// load has reached the threshold. The threshold is the minimum load that
/// triggers a purge; the interval setting has no part in the decision.
pub open spec fn purge_due(c: AppConfig, last_purge: Option<u64>, usage_percent: u32, now: u64) -> bool {
    &&& c.auto_purge_enabled
    &&& cooldown_passed(c, last_purge, now)
    &&& usage_reached(c, usage_percent)
}

fn at_least_secs_exec(now: u64, since: u64, secs: u128) -> (b: bool)
    requires
        secs <= u64::MAX * 60,
    ensures
        b == at_least_secs(now, since, secs as nat),
{
    let elapsed = now.saturating_sub(since) as u128;
    assert(secs * 1_000_000_000 <= u64::MAX * 60 * 1_000_000_000) by (nonlinear_arith)
        requires
            secs <= u64::MAX * 60,
    ;
    elapsed >= secs * (NANOS_PER_SEC as u128)
}

/// The answer of the user to the offer of an update.
#[derive(Debug, Clone, Copy, PartialEq, Eq, Structural)]
pub enum UpdateChoice {
    /// Download and install it.
    Install,
    /// Never offer this version again.
    Skip,
    /// Ask again later.
    Later,
}

/// What answering an update offer asks of the caller.
pub enum PromptAction {
    /// Download and install from this address.
    Download(String),
    /// The configuration changed and must be saved.
    SaveConfig,
    /// Nothing.
    Nothing,
}

/// The state of the monitor. Instants are monotonic nanoseconds.
pub struct MonitorState {
    pub config: AppConfig,
    pub history: std::collections::VecDeque<RamDataPoint>,
    pub last_stats: MemoryStats,
    pub last_purge_time: Option<u64>,
    pub last_purge_result: Option<PurgeResult>,
    pub total_freed_mb_session: u64,
    pub total_freed_bytes_session: u64,
    pub pending_update: Option<UpdateInfo>,
    pub is_checking_update: bool,
    pub update_error: Option<String>,
}

impl MonitorState {
    /// The history is never longer than its capacity.
    pub open spec fn wf(&self) -> bool {
        self.history@.len() <= HISTORY_CAPACITY
    }

    /// A monitor that has seen one snapshot and purged nothing yet.
    pub fn new(config: AppConfig, stats: MemoryStats) -> (m: MonitorState)
        ensures
            m.wf(),
            m.config == config,
            m.history@ == seq![data_point(0, stats)],
            m.last_stats == stats,
            m.last_purge_time is None,
            m.last_purge_result is None,
            m.total_freed_mb_session == 0,
            m.total_freed_bytes_session == 0,
            m.pending_update is None,
            !m.is_checking_update,
            m.update_error is None,
    {
        let mut history = std::collections::VecDeque::with_capacity(HISTORY_CAPACITY);
        history.push_back(
            RamDataPoint { timestamp_secs: 0, usage_percent: stats.usage_percent, used_mb: stats.used_mb },
        );
        proof {
            assert(history@ =~= seq![data_point(0, stats)]);
        }
        MonitorState {
            config,
            history,
            last_stats: stats,
            last_purge_time: None,
            last_purge_result: None,
            total_freed_mb_session: 0,
            total_freed_bytes_session: 0,
            pending_update: None,
            is_checking_update: false,
            update_error: None,
        }
    }

    /// One tick: records the snapshot `stats` taken at wall-clock second
    /// `wall_secs` and monotonic instant `now_ns`, and tells whether a purge is due.
    pub fn update(&mut self, stats: MemoryStats, wall_secs: u64, now_ns: u64) -> (due: bool)
        requires
            old(self).wf(),
        ensures
            final(self).wf(),
            due == purge_due(old(self).config, old(self).last_purge_time, stats.usage_percent, now_ns),
            final(self).history@ == recorded(old(self).history@, data_point(wall_secs, stats)),
            final(self).last_stats == stats,
            final(self).config == old(self).config,
            final(self).last_purge_time == old(self).last_purge_time,
            final(self).last_purge_result == old(self).last_purge_result,
            final(self).total_freed_mb_session == old(self).total_freed_mb_session,
            final(self).total_freed_bytes_session == old(self).total_freed_bytes_session,
            final(self).pending_update == old(self).pending_update,
            final(self).is_checking_update == old(self).is_checking_update,
            final(self).update_error == old(self).update_error,
    {
        self.last_stats = stats;
        if self.history.len() >= HISTORY_CAPACITY {
            self.history.pop_front();
        }
        self.history.push_back(
            RamDataPoint {
                timestamp_secs: wall_secs,
                usage_percent: stats.usage_percent,
                used_mb: stats.used_mb,
            },
        );
        proof {
            assert(self.history@ =~= recorded(old(self).history@, data_point(wall_secs, stats)));
        }
        let mut triggered = false;
        if self.config.auto_purge_enabled {
            let cooldown = match self.last_purge_time {
                None => true,
                Some(t) => at_least_secs_exec(now_ns, t, self.config.cooldown_seconds as u128),
            };
            if cooldown {
                if reaches_threshold(stats.usage_percent, self.config.threshold_bits) {
                    triggered = true;
                }
            }
        }
        triggered
    }

    /// Records a purge that finished at `now_ns`, leaving memory as `after` shows.
    pub fn force_purge(&mut self, result: PurgeResult, after: MemoryStats, now_ns: u64)
        requires
            old(self).total_freed_mb_session + result.mb_freed <= u64::MAX,
            old(self).total_freed_bytes_session + result.bytes_freed <= u64::MAX,
        ensures
            final(self).last_purge_time == Some(now_ns),
            final(self).total_freed_mb_session == old(self).total_freed_mb_session + result.mb_freed,
            final(self).total_freed_bytes_session == old(self).total_freed_bytes_session
                + result.bytes_freed,
            final(self).last_purge_result == Some(result),
            final(self).last_stats == after,
            final(self).config == old(self).config,
            final(self).history == old(self).history,
            final(self).pending_update == old(self).pending_update,
            final(self).is_checking_update == old(self).is_checking_update,
            final(self).update_error == old(self).update_error,
    {
        self.last_purge_time = Some(now_ns);
        self.total_freed_mb_session = self.total_freed_mb_session + result.mb_freed;
        self.total_freed_bytes_session = self.total_freed_bytes_session + result.bytes_freed;
        self.last_purge_result = Some(result);
        self.last_stats = after;
    }

    /// Starts a check for updates: the previous error is forgotten.
    pub fn begin_update_check(&mut self)
        ensures
            final(self).is_checking_update,
            final(self).update_error is None,
            final(self).pending_update == old(self).pending_update,
            final(self).config == old(self).config,
            final(self).history == old(self).history,
            final(self).last_stats == old(self).last_stats,
            final(self).last_purge_time == old(self).last_purge_time,
            final(self).last_purge_result == old(self).last_purge_result,
            final(self).total_freed_mb_session == old(self).total_freed_mb_session,
            final(self).total_freed_bytes_session == old(self).total_freed_bytes_session,
    {
        self.is_checking_update = true;
        self.update_error = None;
    }

    /// Ends a check for updates with its outcome: a newer release becomes the
    /// pending offer, an error is kept to be shown.
    pub fn finish_update_check(&mut self, outcome: Result<Option<UpdateInfo>, String>)
        ensures
            !final(self).is_checking_update,
            match outcome {
                Ok(Some(info)) => final(self).pending_update == Some(info)
                    && final(self).update_error == old(self).update_error,
                Ok(None) => final(self).pending_update == old(self).pending_update
                    && final(self).update_error == old(self).update_error,
                Err(e) => final(self).pending_update == old(self).pending_update
                    && final(self).update_error == Some(e),
            },
            final(self).config == old(self).config,
            final(self).history == old(self).history,
            final(self).last_stats == old(self).last_stats,
            final(self).last_purge_time == old(self).last_purge_time,
            final(self).last_purge_result == old(self).last_purge_result,
            final(self).total_freed_mb_session == old(self).total_freed_mb_session,
            final(self).total_freed_bytes_session == old(self).total_freed_bytes_session,
    {
        self.is_checking_update = false;
        match outcome {
            Ok(Some(info)) => {
                self.pending_update = Some(info);
            },
            Ok(None) => {},
            Err(e) => {
                self.update_error = Some(e);
            },
        }
    }

    /// Applies the user's answer to the pending offer: the offer is gone
    /// afterwards; skipping remembers the version in the configuration.
    pub fn resolve_update_prompt(&mut self, choice: UpdateChoice) -> (action: PromptAction)
        ensures
            final(self).pending_update is None,
            match old(self).pending_update {
                None => action is Nothing && final(self).config == old(self).config,
                Some(info) => match choice {
                    UpdateChoice::Install => (action matches PromptAction::Download(url)
                        && url@ == info.download_url@) && final(self).config == old(self).config,
                    UpdateChoice::Skip => action is SaveConfig && final(self).config
                        == (AppConfig { skipped_version: Some(info.version), ..old(self).config }),
                    UpdateChoice::Later => action is Nothing && final(self).config
                        == old(self).config,
                },
            },
            final(self).history == old(self).history,
            final(self).last_stats == old(self).last_stats,
            final(self).last_purge_time == old(self).last_purge_time,
            final(self).last_purge_result == old(self).last_purge_result,
            final(self).total_freed_mb_session == old(self).total_freed_mb_session,
            final(self).total_freed_bytes_session == old(self).total_freed_bytes_session,
            final(self).is_checking_update == old(self).is_checking_update,
            final(self).update_error == old(self).update_error,
    {
        let pending = self.pending_update.take();
        match pending {
            None => PromptAction::Nothing,
            Some(info) => match choice {
                UpdateChoice::Install => PromptAction::Download(info.download_url),
                UpdateChoice::Skip => {
                    self.config.skipped_version = Some(info.version);
                    PromptAction::SaveConfig
                },
                UpdateChoice::Later => PromptAction::Nothing,
            },
        }
    }
}

/// With automatic purging off, no tick ever asks for a purge.
pub proof fn lemma_disabled_never_purges(c: AppConfig, last_purge: Option<u64>, usage_percent: u32, now: u64)
    requires
        !c.auto_purge_enabled,
    ensures
        !purge_due(c, last_purge, usage_percent, now),
{
}

/// Within the cooldown after a purge, no tick asks for another, whatever the load.
pub proof fn lemma_cooldown_blocks_purge(c: AppConfig, last: u64, usage_percent: u32, now: u64)
    requires
        saturating_diff(now as nat, last as nat) < c.cooldown_seconds * NANOS_PER_SEC,
    ensures
        !purge_due(c, Some(last), usage_percent, now),
{
}

/// Once the cooldown has run out, a load at or above the threshold always
/// asks for a purge when automatic purging is on.
pub proof fn lemma_threshold_triggers_purge(c: AppConfig, last_purge: Option<u64>, usage_percent: u32, now: u64)
    requires
        c.auto_purge_enabled,
        cooldown_passed(c, last_purge, now),
        usage_reached(c, usage_percent),
    ensures
        purge_due(c, last_purge, usage_percent, now),
{
}

/// A load below the threshold never asks for a purge, however long ago the
/// last purge was: the threshold is the minimum load that triggers one.
pub proof fn lemma_below_threshold_never_purges(c: AppConfig, last_purge: Option<u64>, usage_percent: u32, now: u64)
    requires
        !usage_reached(c, usage_percent),
    ensures
        !purge_due(c, last_purge, usage_percent, now),
{
}

/// Recording a point keeps the history within its capacity, ends it with the
/// new point, and keeps every earlier point but possibly the oldest, in order.
pub proof fn lemma_history_window(history: Seq<RamDataPoint>, p: RamDataPoint)
    requires
        history.len() <= HISTORY_CAPACITY,
    ensures
        recorded(history, p).len() <= HISTORY_CAPACITY,
        recorded(history, p).last() == p,
        history.len() < HISTORY_CAPACITY ==> recorded(history, p).drop_last() == history,
        history.len() == HISTORY_CAPACITY ==> recorded(history, p).drop_last() == history.drop_first(),
{
    assert(history.push(p).drop_last() =~= history);
    if history.len() > 0 {
        assert(history.drop_first().push(p).drop_last() =~= history.drop_first());
    }
}

} // verus!
