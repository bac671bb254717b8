//! A purge run: which memory levels it touches, in which order, how the
//! kernel's answers become a result, and which privileges it asks for.

use vstd::prelude::*;
use crate::config::AppConfig;
use crate::stats::{MemoryStats, saturating_diff};
use crate::text::{decimal, hex_upper, push_decimal, push_hex_upper, push_str};

verus! {

/// Information class of `NtSetSystemInformation` that commands the memory lists.
pub const MEMORY_LIST_INFORMATION_CLASS: u32 = 80;
/// Information class of `NtSetSystemInformation` that sets the system file cache.
pub const FILE_CACHE_INFORMATION_CLASS: u32 = 21;
/// Memory-list command that empties the working sets of all processes.
pub const EMPTY_WORKING_SETS_COMMAND: u32 = 2;

/// One level of purging.
#[derive(Debug, Clone, Copy, PartialEq, Eq, Structural)]
pub enum PurgeLevel {
    /// Trim the working sets of all processes.
    WorkingSets,
    /// Return the standby list to free memory.
    StandbyList,
    /// Write the modified page list to disk.
    ModifiedList,
    /// Flush the system file cache.
    SystemCache,
}

/// What performing one level gave.
pub enum LevelOutcome {
    /// The working sets were trimmed in this many processes.
    Trimmed(usize),
    /// A list or cache level succeeded.
    Completed,
    /// A list or cache level failed with this message.
    Failed(String),
}

/// The outcome has the shape that the level produces: a count for the
/// working sets, success or failure for the others.
pub open spec fn outcome_fits(level: PurgeLevel, outcome: LevelOutcome) -> bool {
    (level == PurgeLevel::WorkingSets) <==> (outcome is Trimmed)
}

/// The result of a purge run.
#[derive(Debug, Clone)]
pub struct PurgeResult {
    pub initial_used_bytes: u64,
    pub final_used_bytes: u64,
    pub bytes_freed: u64,
    pub initial_used_mb: u64,
    pub final_used_mb: u64,
    pub mb_freed: u64,
    pub processes_trimmed: usize,
    pub levels_executed: Vec<String>,
    pub errors: Vec<String>,
}

/// The enabled levels, in the fixed order working sets, standby list,
/// modified list, system cache.
pub open spec fn spec_purge_plan(c: AppConfig) -> Seq<PurgeLevel> {
    (if c.purge_working_sets { seq![PurgeLevel::WorkingSets] } else { seq![] })
        + (if c.purge_standby_list { seq![PurgeLevel::StandbyList] } else { seq![] })
        + (if c.purge_modified_list { seq![PurgeLevel::ModifiedList] } else { seq![] })
        + (if c.purge_system_cache { seq![PurgeLevel::SystemCache] } else { seq![] })
}

/// The levels that a purge with `config` performs, in order.
pub fn purge_plan(config: &AppConfig) -> (plan: Vec<PurgeLevel>)
    ensures
        plan@ == spec_purge_plan(*config),
{
    let mut plan = Vec::new();
    if config.purge_working_sets {
        plan.push(PurgeLevel::WorkingSets);
    }
    if config.purge_standby_list {
        plan.push(PurgeLevel::StandbyList);
    }
    if config.purge_modified_list {
        plan.push(PurgeLevel::ModifiedList);
    }
    if config.purge_system_cache {
        plan.push(PurgeLevel::SystemCache);
    }
    proof {
        assert(plan@ =~= spec_purge_plan(*config));
    }
    plan
}

/// The line that records a performed level.
pub open spec fn level_label(level: PurgeLevel, outcome: LevelOutcome) -> Seq<char> {
    match level {
        PurgeLevel::WorkingSets => "Process Working Sets ("@ + decimal(
            match outcome {
                LevelOutcome::Trimmed(n) => n as nat,
                _ => 0,
            },
        ) + ")"@,
        PurgeLevel::StandbyList => "Standby Memory List"@,
        PurgeLevel::ModifiedList => "Modified Page List"@,
        PurgeLevel::SystemCache => "System File Cache"@,
    }
}

/// The lines of the levels that did not fail, in order.
pub open spec fn executed_labels(plan: Seq<PurgeLevel>, outcomes: Seq<LevelOutcome>) -> Seq<Seq<char>>
    decreases outcomes.len(),
{
    if outcomes.len() == 0 || plan.len() == 0 {
        seq![]
    } else {
        let before = executed_labels(plan.drop_last(), outcomes.drop_last());
        match outcomes.last() {
            LevelOutcome::Failed(_) => before,
            o => before.push(level_label(plan.last(), o)),
        }
    }
}

/// The messages of the levels that failed, in order.
pub open spec fn failure_messages(outcomes: Seq<LevelOutcome>) -> Seq<Seq<char>>
    decreases outcomes.len(),
{
    if outcomes.len() == 0 {
        seq![]
    } else {
        let before = failure_messages(outcomes.drop_last());
        match outcomes.last() {
            LevelOutcome::Failed(e) => before.push(e@),
            _ => before,
        }
    }
}

/// The process count of the last working-set trim, or 0 when there was none.
pub open spec fn trimmed_processes(outcomes: Seq<LevelOutcome>) -> nat
    decreases outcomes.len(),
{
    if outcomes.len() == 0 {
        0
    } else {
        match outcomes.last() {
            LevelOutcome::Trimmed(n) => n as nat,
            _ => trimmed_processes(outcomes.drop_last()),
        }
    }
}

/// The line that records a performed level.
fn level_label_exec(level: PurgeLevel, trimmed: usize) -> (s: String)
    ensures
        s@ == level_label(level, LevelOutcome::Trimmed(trimmed)),
{
    match level {
        PurgeLevel::WorkingSets => {
            let mut s = String::from_str("Process Working Sets (");
            push_decimal(&mut s, trimmed as u64);
            push_str(&mut s, ")");
            s
        },
        PurgeLevel::StandbyList => String::from_str("Standby Memory List"),
        PurgeLevel::ModifiedList => String::from_str("Modified Page List"),
        PurgeLevel::SystemCache => String::from_str("System File Cache"),
    }
}

/// Gathers what each planned level gave into the result of the run, with the
/// memory freed between the snapshots taken before and after.
pub fn summarize_purge(
    plan: &Vec<PurgeLevel>,
    outcomes: &Vec<LevelOutcome>,
    initial: MemoryStats,
    after: MemoryStats,
) -> (r: PurgeResult)
    requires
        plan.len() == outcomes.len(),
        forall|i: int| 0 <= i < plan.len() ==> outcome_fits(#[trigger] plan@[i], outcomes@[i]),
    ensures
        r.levels_executed.deep_view() == executed_labels(plan@, outcomes@),
        r.errors.deep_view() == failure_messages(outcomes@),
        r.processes_trimmed == trimmed_processes(outcomes@),
        r.initial_used_bytes == initial.used_bytes,
        r.final_used_bytes == after.used_bytes,
        r.bytes_freed == saturating_diff(initial.used_bytes as nat, after.used_bytes as nat),
        r.initial_used_mb == initial.used_mb,
        r.final_used_mb == after.used_mb,
        r.mb_freed == saturating_diff(initial.used_mb as nat, after.used_mb as nat),
{
    let mut levels: Vec<String> = Vec::new();
    let mut errors: Vec<String> = Vec::new();
    let mut processes: usize = 0;
    let n = outcomes.len();
    let mut i: usize = 0;
    while i < n
        invariant
            n == outcomes.len(),
            n == plan.len(),
            0 <= i <= n,
            levels.deep_view() == executed_labels(plan@.take(i as int), outcomes@.take(i as int)),
            errors.deep_view() == failure_messages(outcomes@.take(i as int)),
            processes == trimmed_processes(outcomes@.take(i as int)),
        decreases n - i,
    {
        let ghost p = plan@.take(i + 1);
        let ghost o = outcomes@.take(i + 1);
        proof {
            assert(p.drop_last() =~= plan@.take(i as int));
            assert(o.drop_last() =~= outcomes@.take(i as int));
            assert(p.last() == plan@[i as int]);
            assert(o.last() == outcomes@[i as int]);
        }
        match &outcomes[i] {
            LevelOutcome::Trimmed(count) => {
                processes = *count;
                let label = level_label_exec(plan[i], *count);
                levels.push(label);
                proof {
                    assert(levels.deep_view() =~= executed_labels(p, o));
                }
            },
            LevelOutcome::Completed => {
                let label = level_label_exec(plan[i], 0);
                levels.push(label);
                proof {
                    assert(levels.deep_view() =~= executed_labels(p, o));
                }
            },
            LevelOutcome::Failed(e) => {
                errors.push(e.clone());
                proof {
                    assert(errors.deep_view() =~= failure_messages(o));
                }
            },
        }
        i = i + 1;
    }
    proof {
        assert(plan@.take(n as int) =~= plan@);
        assert(outcomes@.take(n as int) =~= outcomes@);
    }
    PurgeResult {
        initial_used_bytes: initial.used_bytes,
        final_used_bytes: after.used_bytes,
        bytes_freed: initial.used_bytes.saturating_sub(after.used_bytes),
        initial_used_mb: initial.used_mb,
        final_used_mb: after.used_mb,
        mb_freed: initial.used_mb.saturating_sub(after.used_mb),
        processes_trimmed: processes,
        levels_executed: levels,
        errors,
    }
}

/// Each level's line names that level: the list and cache levels by their
/// names, the working sets with the count of processes trimmed; so two
/// different levels never give the same line, whatever their outcomes.
pub proof fn lemma_labels_name_their_levels(
    l1: PurgeLevel,
    o1: LevelOutcome,
    l2: PurgeLevel,
    o2: LevelOutcome,
    trimmed: usize,
)
    ensures
        level_label(PurgeLevel::WorkingSets, LevelOutcome::Trimmed(trimmed))
            == "Process Working Sets ("@ + decimal(trimmed as nat) + ")"@,
        level_label(PurgeLevel::StandbyList, o1) == "Standby Memory List"@,
        level_label(PurgeLevel::ModifiedList, o1) == "Modified Page List"@,
        level_label(PurgeLevel::SystemCache, o1) == "System File Cache"@,
        l1 != l2 ==> level_label(l1, o1) != level_label(l2, o2),
{
    reveal_strlit("Process Working Sets (");
    reveal_strlit("Standby Memory List");
    reveal_strlit("Modified Page List");
    reveal_strlit("System File Cache");
    reveal_strlit(")");
    let a = level_label(l1, o1);
    let b = level_label(l2, o2);
    if l1 != l2 {
        assert(a[0] != b[0] || a[1] != b[1]);
    }
}

/// The levels performed and the levels failed together account for every
/// planned level exactly once.
pub proof fn lemma_every_level_accounted(plan: Seq<PurgeLevel>, outcomes: Seq<LevelOutcome>)
    requires
        plan.len() == outcomes.len(),
    ensures
        executed_labels(plan, outcomes).len() + failure_messages(outcomes).len() == plan.len(),
    decreases outcomes.len(),
{
    if outcomes.len() > 0 {
        lemma_every_level_accounted(plan.drop_last(), outcomes.drop_last());
    }
}

/// A plan never repeats a level, and holds a level exactly when the
/// configuration enables it.
pub proof fn lemma_plan_is_enabled_levels(c: AppConfig)
    ensures
        forall|i: int, j: int|
            0 <= i < j < spec_purge_plan(c).len() ==> spec_purge_plan(c)[i] != spec_purge_plan(c)[j],
        spec_purge_plan(c).contains(PurgeLevel::WorkingSets) == c.purge_working_sets,
        spec_purge_plan(c).contains(PurgeLevel::StandbyList) == c.purge_standby_list,
        spec_purge_plan(c).contains(PurgeLevel::ModifiedList) == c.purge_modified_list,
        spec_purge_plan(c).contains(PurgeLevel::SystemCache) == c.purge_system_cache,
{
    let p = spec_purge_plan(c);
    if c.purge_working_sets {
        assert(p[0] == PurgeLevel::WorkingSets);
    }
    if c.purge_standby_list {
        assert(p[c.purge_working_sets as int] == PurgeLevel::StandbyList);
    }
    if c.purge_modified_list {
        assert(p[c.purge_working_sets as int + c.purge_standby_list as int] == PurgeLevel::ModifiedList);
    }
    if c.purge_system_cache {
        assert(p[p.len() - 1] == PurgeLevel::SystemCache);
    }
}

/// The memory-list commands tried, in order, to purge the standby list.
pub open spec fn spec_standby_list_commands() -> Seq<u32> {
    seq![4u32, 8u32, 3u32]
}

/// The memory-list command that flushes the modified page list
/// (`MemoryFlushModifiedList`).
pub const FLUSH_MODIFIED_LIST_COMMAND: u32 = 3;

/// The memory-list commands tried, in order, to flush the modified page list:
/// `MemoryFlushModifiedList` alone.
pub open spec fn spec_modified_list_commands() -> Seq<u32> {
    seq![FLUSH_MODIFIED_LIST_COMMAND]
}

/// The memory-list commands tried, in order, to purge the standby list.
pub fn standby_list_commands() -> (v: Vec<u32>)
    ensures
        v@ == spec_standby_list_commands(),
{
    let v = vec![4u32, 8u32, 3u32];
    proof {
        assert(v@ =~= spec_standby_list_commands());
    }
    v
}

/// The memory-list commands tried, in order, to flush the modified page list.
pub fn modified_list_commands() -> (v: Vec<u32>)
    ensures
        v@ == spec_modified_list_commands(),
{
    let v = vec![FLUSH_MODIFIED_LIST_COMMAND];
    proof {
        assert(v@ =~= spec_modified_list_commands());
    }
    v
}

/// The label and command list of a level purged through memory-list
/// commands tried until one succeeds; the other levels have none.
pub open spec fn spec_level_commands(level: PurgeLevel) -> Option<(Seq<char>, Seq<u32>)> {
    match level {
        PurgeLevel::StandbyList => Some(("Standby"@, spec_standby_list_commands())),
        PurgeLevel::ModifiedList => Some(("Modified"@, spec_modified_list_commands())),
        _ => None,
    }
}

/// The label (used in error messages) and the command list of a level purged
/// through memory-list commands; `None` for the working sets and the system cache.
pub fn level_commands(level: PurgeLevel) -> (r: Option<(&'static str, Vec<u32>)>)
    ensures
        match (r, spec_level_commands(level)) {
            (Some((label, cmds)), Some((l, c))) => label@ == l && cmds@ == c,
            (None, None) => true,
            _ => false,
        },
{
    match level {
        PurgeLevel::StandbyList => Some(("Standby", standby_list_commands())),
        PurgeLevel::ModifiedList => Some(("Modified", modified_list_commands())),
        _ => None,
    }
}

/// The modified-list level dispatches `MemoryFlushModifiedList` as its first
/// (and only) command; the standby level starts with `MemoryPurgeStandbyList`.
pub proof fn lemma_levels_dispatch_their_commands()
    ensures
        spec_level_commands(PurgeLevel::ModifiedList) matches Some((_, c)) && c.len() == 1
            && c[0] == FLUSH_MODIFIED_LIST_COMMAND,
        spec_level_commands(PurgeLevel::StandbyList) matches Some((_, c)) && c[0] == 4,
        spec_level_commands(PurgeLevel::WorkingSets) is None,
        spec_level_commands(PurgeLevel::SystemCache) is None,
{
}

/// The 32 bits of an NT status, read as an unsigned number.
pub open spec fn status_bits(status: i32) -> nat {
    if status < 0 {
        (status + 0x1_0000_0000) as nat
    } else {
        status as nat
    }
}

/// The message of a failed `NtSetSystemInformation` call for the level named `label`.
pub open spec fn nt_error_text(label: Seq<char>, status: i32) -> Seq<char> {
    "Error NtSetSystemInformation ("@ + label + "): 0x"@ + hex_upper(status_bits(status))
}

/// An NT status reports success when it is not negative.
pub open spec fn nt_success(status: i32) -> bool {
    status >= 0
}

/// One of the statuses reports success.
pub open spec fn any_success(statuses: Seq<i32>) -> bool {
    exists|i: int| 0 <= i < statuses.len() && nt_success(#[trigger] statuses[i])
}

/// The last status, or 0 when there is none.
pub open spec fn last_status(statuses: Seq<i32>) -> i32 {
    if statuses.len() == 0 {
        0
    } else {
        statuses.last()
    }
}

/// What to do next while trying a list of commands until one succeeds.
pub enum RetryStep {
    /// Issue this command next.
    Issue(u32),
    /// Stop: one command succeeded, or all failed with this message.
    Finished(Result<(), String>),
}

/// Builds the message of a failed `NtSetSystemInformation` call.
pub fn nt_error_message(label: &str, status: i32) -> (m: String)
    ensures
        m@ == nt_error_text(label@, status),
{
    let mut m = String::from_str("Error NtSetSystemInformation (");
    push_str(&mut m, label);
    push_str(&mut m, "): 0x");
    let bits: u32 = if status < 0 {
        (status as i64 + 0x1_0000_0000i64) as u32
    } else {
        status as u32
    };
    push_hex_upper(&mut m, bits);
    proof {
        assert(m@ =~= nt_error_text(label@, status));
    }
    m
}

/// Given the statuses of the commands issued so far, in order, decides the
/// next step: success as soon as one status succeeded, else the next command
/// while there is one, else a failure naming the last status.
pub fn next_retry_step(label: &str, commands: &Vec<u32>, statuses: &Vec<i32>) -> (step: RetryStep)
    ensures
        match step {
            RetryStep::Finished(Ok(())) => any_success(statuses@),
            RetryStep::Issue(c) => !any_success(statuses@) && statuses.len() < commands.len()
                && c == commands@[statuses.len() as int],
            RetryStep::Finished(Err(m)) => !any_success(statuses@) && statuses.len()
                >= commands.len() && m@ == nt_error_text(label@, last_status(statuses@)),
        },
{
    let n = statuses.len();
    let mut i: usize = 0;
    while i < n
        invariant
            n == statuses.len(),
            0 <= i <= n,
            forall|j: int| 0 <= j < i ==> !nt_success(#[trigger] statuses@[j]),
        decreases n - i,
    {
        if statuses[i] >= 0 {
            return RetryStep::Finished(Ok(()));
        }
        i = i + 1;
    }
    if n < commands.len() {
        RetryStep::Issue(commands[n])
    } else {
        let last = if n == 0 {
            0
        } else {
            statuses[n - 1]
        };
        RetryStep::Finished(Err(nt_error_message(label, last)))
    }
}

/// The outcome of the single system-cache call with this status.
pub fn system_cache_result(status: i32) -> (r: Result<(), String>)
    ensures
        match r {
            Ok(()) => nt_success(status),
            Err(m) => !nt_success(status) && m@ == nt_error_text("SystemCache"@, status),
        },
{
    if status >= 0 {
        Ok(())
    } else {
        Err(nt_error_message("SystemCache", status))
    }
}

/// Processes whose working set is trimmed: all but the idle and system
/// processes (identifiers 0 to 4).
pub fn is_trimmable_process(pid: u32) -> (b: bool)
    ensures
        b == (pid > 4),
{
    pid > 4
}

/// The access asked for when opening a process to trim its working set.
#[derive(PartialEq, Eq, Structural, Clone, Copy, Debug)]
pub enum ProcessAccess {
    /// Setting quotas and querying information.
    QueryAndSetQuota,
    /// Setting quotas only.
    SetQuota,
    /// Every access right.
    All,
}

/// The accesses tried in turn until the process opens.
pub open spec fn spec_open_attempts() -> Seq<ProcessAccess> {
    seq![ProcessAccess::QueryAndSetQuota, ProcessAccess::SetQuota, ProcessAccess::All]
}

/// What to do next with one trimmable process.
#[derive(PartialEq, Eq, Structural, Clone, Copy, Debug)]
pub enum OpenStep {
    /// Try to open it with this access.
    Open(ProcessAccess),
    /// It is open: trim it, close it and count it.
    Trim,
    /// Every access was refused: leave it.
    Skip,
}

/// The step after `failed` refused attempts, or once the process is open.
pub open spec fn spec_next_open_step(failed: nat, opened: bool) -> OpenStep {
    if opened {
        OpenStep::Trim
    } else if failed < spec_open_attempts().len() {
        OpenStep::Open(spec_open_attempts()[failed as int])
    } else {
        OpenStep::Skip
    }
}

/// Decides the next step with a process: once it is open it is trimmed; until
/// then the next access in `spec_open_attempts` is tried, and the process is
/// left when all three were refused.
pub fn next_open_step(failed: usize, opened: bool) -> (step: OpenStep)
    ensures
        step == spec_next_open_step(failed as nat, opened),
{
    if opened {
        OpenStep::Trim
    } else if failed == 0 {
        OpenStep::Open(ProcessAccess::QueryAndSetQuota)
    } else if failed == 1 {
        OpenStep::Open(ProcessAccess::SetQuota)
    } else if failed == 2 {
        OpenStep::Open(ProcessAccess::All)
    } else {
        OpenStep::Skip
    }
}

/// A privilege enabled before purging.
#[derive(Debug, Clone, Copy, PartialEq, Eq, Structural)]
pub enum Privilege {
    Debug,
    ProfileSingleProcess,
    IncreaseQuota,
    SystemProfile,
}

/// The privileges enabled before each purge level, in order.
pub open spec fn spec_all_privileges() -> Seq<Privilege> {
    seq![
        Privilege::Debug,
        Privilege::ProfileSingleProcess,
        Privilege::IncreaseQuota,
        Privilege::SystemProfile,
    ]
}

impl Privilege {
    /// The system name of the privilege.
    pub open spec fn spec_name(self) -> Seq<char> {
        match self {
            Privilege::Debug => "SeDebugPrivilege"@,
            Privilege::ProfileSingleProcess => "SeProfileSingleProcessPrivilege"@,
            Privilege::IncreaseQuota => "SeIncreaseQuotaPrivilege"@,
            Privilege::SystemProfile => "SeSystemProfilePrivilege"@,
        }
    }

    /// The system name of the privilege.
    pub fn name(&self) -> (s: &'static str)
        ensures
            s@ == self.spec_name(),
    {
        match self {
            Privilege::Debug => "SeDebugPrivilege",
            Privilege::ProfileSingleProcess => "SeProfileSingleProcessPrivilege",
            Privilege::IncreaseQuota => "SeIncreaseQuotaPrivilege",
            Privilege::SystemProfile => "SeSystemProfilePrivilege",
        }
    }
}

/// Asks `enable_privilege` to enable each privilege of the purge, in order,
/// and returns its answers in the same order.
pub fn enable_all_privileges<F: Fn(Privilege) -> bool>(enable_privilege: F) -> (granted: Vec<bool>)
    requires
        forall|p: Privilege| call_requires(enable_privilege, (p,)),
    ensures
        granted.len() == spec_all_privileges().len(),
        forall|i: int|
            0 <= i < granted.len() ==> call_ensures(
                enable_privilege,
                (spec_all_privileges()[i],),
                #[trigger] granted@[i],
            ),
{
    let mut granted = Vec::new();
    let g0 = enable_privilege(Privilege::Debug);
    granted.push(g0);
    let g1 = enable_privilege(Privilege::ProfileSingleProcess);
    granted.push(g1);
    let g2 = enable_privilege(Privilege::IncreaseQuota);
    granted.push(g2);
    let g3 = enable_privilege(Privilege::SystemProfile);
    granted.push(g3);
    proof {
        assert(granted@ =~= seq![g0, g1, g2, g3]);
    }
    granted
}

} // verus!
