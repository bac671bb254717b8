//! State of the dashboard: the screen shown, the purge history and its
//! summary, and the status line.

use vstd::prelude::*;
use crate::purge::PurgeResult;
use crate::text::{decimal, push_decimal, push_str};
use crate::units::{format_bytes, format_bytes_text};

verus! {

/// The screens of the dashboard.
#[derive(Debug, PartialEq, Eq, Copy, Clone, Structural)]
pub enum CurrentScreen {
    Home,
    Menu,
    Settings,
    History,
    Stats,
    About,
}

impl CurrentScreen {
    /// The screen that the back button leads to: the home screen from the
    /// menu, the menu from every other page; the home screen has none.
    pub open spec fn spec_back_target(self) -> Option<CurrentScreen> {
        match self {
            CurrentScreen::Home => None,
            CurrentScreen::Menu => Some(CurrentScreen::Home),
            _ => Some(CurrentScreen::Menu),
        }
    }

    /// The screen that the back button leads to, if it has one.
    pub fn back_target(self) -> (t: Option<CurrentScreen>)
        ensures
            t == self.spec_back_target(),
    {
        match self {
            CurrentScreen::Home => None,
            CurrentScreen::Menu => Some(CurrentScreen::Home),
            _ => Some(CurrentScreen::Menu),
        }
    }
}

/// A navigation control of the dashboard.
#[derive(Debug, PartialEq, Eq, Copy, Clone, Structural)]
pub enum NavAction {
    /// The menu button of the home screen.
    OpenMenu,
    /// The back button of a page.
    Back,
    /// A row of the main menu, opening the given page.
    Open(CurrentScreen),
    /// The memory card of the main menu, opening the statistics.
    RamCard,
}

/// The pages that rows of the main menu open.
pub open spec fn is_menu_page(s: CurrentScreen) -> bool {
    s == CurrentScreen::Settings || s == CurrentScreen::History || s == CurrentScreen::Stats || s
        == CurrentScreen::About
}

/// The screen shown after using control `a` on screen `s`: the menu button
/// works on the home screen, the rows and the memory card on the menu, the
/// back button wherever there is one; a control with nothing to do leaves the
/// screen as it is.
pub open spec fn spec_navigate(s: CurrentScreen, a: NavAction) -> CurrentScreen {
    match a {
        NavAction::OpenMenu => if s == CurrentScreen::Home {
            CurrentScreen::Menu
        } else {
            s
        },
        NavAction::Back => match s.spec_back_target() {
            Some(t) => t,
            None => s,
        },
        NavAction::Open(t) => if s == CurrentScreen::Menu && is_menu_page(t) {
            t
        } else {
            s
        },
        NavAction::RamCard => if s == CurrentScreen::Menu {
            CurrentScreen::Stats
        } else {
            s
        },
    }
}

/// The entries of the main menu, in order: label and the screen it opens.
pub open spec fn spec_menu_entries() -> Seq<(Seq<char>, CurrentScreen)> {
    seq![
        ("PURGE CONFIGURATION"@, CurrentScreen::Settings),
        ("RESULT HISTORY"@, CurrentScreen::History),
        ("MEMORY STATISTICS"@, CurrentScreen::Stats),
        ("ABOUT RAM PURGER"@, CurrentScreen::About),
    ]
}

/// The entries of the main menu, in order: label and the screen it opens.
pub fn menu_entries() -> (v: Vec<(&'static str, CurrentScreen)>)
    ensures
        v@.len() == spec_menu_entries().len(),
        forall|i: int|
            0 <= i < v@.len() ==> (#[trigger] v@[i]).0@ == spec_menu_entries()[i].0 && v@[i].1
                == spec_menu_entries()[i].1,
{
    let v = vec![
        ("PURGE CONFIGURATION", CurrentScreen::Settings),
        ("RESULT HISTORY", CurrentScreen::History),
        ("MEMORY STATISTICS", CurrentScreen::Stats),
        ("ABOUT RAM PURGER", CurrentScreen::About),
    ];
    v
}

/// One line of the purge history.
pub struct PurgeRecord {
    pub time_str: String,
    pub bytes_freed: u64,
    pub mb_freed: u64,
    pub processes: usize,
    pub levels: String,
}

/// The parts joined by `sep`.
pub open spec fn join_with(parts: Seq<Seq<char>>, sep: Seq<char>) -> Seq<char>
    decreases parts.len(),
{
    if parts.len() == 0 {
        seq![]
    } else if parts.len() == 1 {
        parts[0]
    } else {
        join_with(parts.drop_last(), sep) + sep + parts.last()
    }
}

/// Joins the strings with `sep` between them.
pub fn join_strings(parts: &Vec<String>, sep: &str) -> (s: String)
    ensures
        s@ == join_with(parts.deep_view(), sep@),
{
    let mut s = String::new();
    let n = parts.len();
    let mut i: usize = 0;
    while i < n
        invariant
            n == parts.len(),
            0 <= i <= n,
            s@ == join_with(parts.deep_view().take(i as int), sep@),
        decreases n - i,
    {
        proof {
            assert(parts.deep_view().take(i + 1).drop_last() =~= parts.deep_view().take(i as int));
            assert(parts.deep_view()[i as int] == parts@[i as int]@);
        }
        if i > 0 {
            push_str(&mut s, sep);
        }
        push_str(&mut s, parts[i].as_str());
        proof {
            if i == 0 {
                assert(s@ =~= join_with(parts.deep_view().take(1), sep@));
            } else {
                assert(s@ =~= join_with(parts.deep_view().take(i + 1), sep@));
            }
        }
        i = i + 1;
    }
    proof {
        assert(parts.deep_view().take(n as int) =~= parts.deep_view());
    }
    s
}

impl PurgeRecord {
    /// The history line of `res`, stamped `time_str`; its levels are joined by ", ".
    pub fn from_result(res: &PurgeResult, time_str: String) -> (r: PurgeRecord)
        ensures
            r.time_str == time_str,
            r.bytes_freed == res.bytes_freed,
            r.mb_freed == res.mb_freed,
            r.processes == res.processes_trimmed,
            r.levels@ == join_with(res.levels_executed.deep_view(), ", "@),
    {
        PurgeRecord {
            time_str,
            bytes_freed: res.bytes_freed,
            mb_freed: res.mb_freed,
            processes: res.processes_trimmed,
            levels: join_strings(&res.levels_executed, ", "),
        }
    }
}

/// Total bytes freed over the records.
pub open spec fn freed_sum(records: Seq<PurgeRecord>) -> nat
    decreases records.len(),
{
    if records.len() == 0 {
        0
    } else {
        freed_sum(records.drop_last()) + records.last().bytes_freed as nat
    }
}

/// Largest number of bytes freed by one record, 0 without records.
pub open spec fn freed_max(records: Seq<PurgeRecord>) -> nat
    decreases records.len(),
{
    if records.len() == 0 {
        0
    } else {
        let m = freed_max(records.drop_last());
        if records.last().bytes_freed > m {
            records.last().bytes_freed as nat
        } else {
            m
        }
    }
}

/// Count, largest and average bytes freed of the history.
#[derive(Debug, Clone, Copy, PartialEq, Eq, Structural)]
pub struct HistorySummary {
    pub count: usize,
    pub max_freed: u64,
    pub avg_freed: u64,
}

/// Summarizes the history: number of purges, most bytes freed by one, and
/// the average (rounded down); 0 for both without purges.
pub fn history_summary(records: &Vec<PurgeRecord>) -> (s: HistorySummary)
    requires
        freed_sum(records@) <= u64::MAX,
    ensures
        s.count == records.len(),
        s.max_freed == freed_max(records@),
        s.avg_freed == if records.len() == 0 {
            0
        } else {
            freed_sum(records@) / (records.len() as nat)
        },
{
    let n = records.len();
    let mut i: usize = 0;
    let mut sum: u64 = 0;
    let mut max: u64 = 0;
    while i < n
        invariant
            n == records.len(),
            0 <= i <= n,
            freed_sum(records@) <= u64::MAX,
            sum == freed_sum(records@.take(i as int)),
            max == freed_max(records@.take(i as int)),
        decreases n - i,
    {
        proof {
            assert(records@.take(i + 1).drop_last() =~= records@.take(i as int));
            lemma_sum_prefix(records@, i + 1);
        }
        let b = records[i].bytes_freed;
        sum = sum + b;
        if b > max {
            max = b;
        }
        i = i + 1;
    }
    proof {
        assert(records@.take(n as int) =~= records@);
    }
    let avg = if n > 0 {
        sum / (n as u64)
    } else {
        0
    };
    HistorySummary { count: n, max_freed: max, avg_freed: avg }
}

proof fn lemma_sum_prefix(records: Seq<PurgeRecord>, k: int)
    requires
        0 <= k <= records.len(),
    ensures
        freed_sum(records.take(k)) <= freed_sum(records),
    decreases records.len() - k,
{
    if k < records.len() {
        lemma_sum_prefix(records, k + 1);
        assert(records.take(k + 1).drop_last() =~= records.take(k));
    } else {
        assert(records.take(k) =~= records);
    }
}

/// Nanoseconds (800 ms) for which the purge button shows that a purge ran.
pub const PURGE_ANIMATION_NANOS: u64 = 800_000_000;

/// The dashboard: screen shown, status line, purge history and the instant
/// (monotonic nanoseconds) of the last purge shown.
pub struct Dashboard {
    pub status_message: Option<String>,
    pub current_screen: CurrentScreen,
    pub purge_history: Vec<PurgeRecord>,
    pub last_purge_anim: Option<u64>,
}

/// The status line after a purge started by the user.
pub open spec fn manual_purge_message(res: PurgeResult) -> Seq<char> {
    "Freed "@ + format_bytes_text(res.bytes_freed as nat) + " (Processes: "@ + decimal(
        res.processes_trimmed as nat,
    ) + ")"@
}

/// The status line after an automatic purge.
pub open spec fn auto_purge_message(res: PurgeResult) -> Seq<char> {
    "Auto-purge: "@ + format_bytes_text(res.bytes_freed as nat) + " freed"@
}

/// `after` is `before` with one record added at its end.
pub open spec fn adds_one_record(before: Seq<PurgeRecord>, after: Seq<PurgeRecord>) -> bool {
    &&& after.len() == before.len() + 1
    &&& after.drop_last() == before
}

impl Dashboard {
    /// The home screen, no status line, no history.
    pub fn new() -> (d: Dashboard)
        ensures
            d.status_message is None,
            d.current_screen == CurrentScreen::Home,
            d.purge_history@.len() == 0,
            d.last_purge_anim is None,
    {
        Dashboard {
            status_message: None,
            current_screen: CurrentScreen::Home,
            purge_history: Vec::new(),
            last_purge_anim: None,
        }
    }

    /// Records a purge finished at `now_ns` and stamped `time_str`: a history
    /// line, the status line (which tells whether it was automatic), and the
    /// start of the button animation.
    pub fn record_purge(&mut self, res: &PurgeResult, time_str: String, now_ns: u64, automatic: bool)
        ensures
            adds_one_record(old(self).purge_history@, final(self).purge_history@),
            ({
                let r = final(self).purge_history@.last();
                &&& r.time_str == time_str
                &&& r.bytes_freed == res.bytes_freed
                &&& r.mb_freed == res.mb_freed
                &&& r.processes == res.processes_trimmed
                &&& r.levels@ == join_with(res.levels_executed.deep_view(), ", "@)
            }),
            final(self).status_message matches Some(m) && m@ == if automatic {
                auto_purge_message(*res)
            } else {
                manual_purge_message(*res)
            },
            final(self).last_purge_anim == Some(now_ns),
            final(self).current_screen == old(self).current_screen,
    {
        let record = PurgeRecord::from_result(res, time_str);
        self.purge_history.push(record);
        let mut m: String;
        if automatic {
            m = String::from_str("Auto-purge: ");
            push_str(&mut m, format_bytes(res.bytes_freed).as_str());
            push_str(&mut m, " freed");
        } else {
            m = String::from_str("Freed ");
            push_str(&mut m, format_bytes(res.bytes_freed).as_str());
            push_str(&mut m, " (Processes: ");
            push_decimal(&mut m, res.processes_trimmed as u64);
            push_str(&mut m, ")");
        }
        self.status_message = Some(m);
        self.last_purge_anim = Some(now_ns);
        proof {
            assert(self.purge_history@.drop_last() =~= old(self).purge_history@);
        }
    }

    /// Empties the purge history.
    pub fn clear_history(&mut self)
        ensures
            final(self).purge_history@.len() == 0,
            final(self).status_message == old(self).status_message,
            final(self).current_screen == old(self).current_screen,
            final(self).last_purge_anim == old(self).last_purge_anim,
    {
        self.purge_history.clear();
    }

    /// Follows the back button of the current screen, if it has one.
    pub fn go_back(&mut self)
        ensures
            final(self).current_screen == match old(self).current_screen.spec_back_target() {
                Some(t) => t,
                None => old(self).current_screen,
            },
            final(self).purge_history == old(self).purge_history,
            final(self).status_message == old(self).status_message,
            final(self).last_purge_anim == old(self).last_purge_anim,
    {
        if let Some(t) = self.current_screen.back_target() {
            self.current_screen = t;
        }
    }

    /// Uses a navigation control on the current screen.
    pub fn navigate(&mut self, action: NavAction)
        ensures
            final(self).current_screen == spec_navigate(old(self).current_screen, action),
            final(self).purge_history == old(self).purge_history,
            final(self).status_message == old(self).status_message,
            final(self).last_purge_anim == old(self).last_purge_anim,
    {
        let s = self.current_screen;
        let next = match action {
            NavAction::OpenMenu => if s == CurrentScreen::Home {
                CurrentScreen::Menu
            } else {
                s
            },
            NavAction::Back => match s.back_target() {
                Some(t) => t,
                None => s,
            },
            NavAction::Open(t) => {
                let page = t == CurrentScreen::Settings || t == CurrentScreen::History || t
                    == CurrentScreen::Stats || t == CurrentScreen::About;
                if s == CurrentScreen::Menu && page {
                    t
                } else {
                    s
                }
            },
            NavAction::RamCard => if s == CurrentScreen::Menu {
                CurrentScreen::Stats
            } else {
                s
            },
        };
        self.current_screen = next;
    }

    /// Whether the purge button still shows a purge at `now_ns`: less than
    /// 800 ms have passed since the last one.
    pub fn is_animating(&self, now_ns: u64) -> (b: bool)
        ensures
            b == self.is_animating_spec(now_ns),
    {
        match self.last_purge_anim {
            Some(t) => now_ns.saturating_sub(t) < PURGE_ANIMATION_NANOS,
            None => false,
        }
    }

    /// The text of the purge button at `now_ns`.
    pub fn purge_button_label(&self, now_ns: u64) -> (s: &'static str)
        ensures
            s@ == if self.is_animating_spec(now_ns) {
                "PURGING..."@
            } else {
                "PURGE"@
            },
    {
        if self.is_animating(now_ns) {
            "PURGING..."
        } else {
            "PURGE"
        }
    }

    /// Less than 800 ms have passed at `now_ns` since the last purge shown.
    pub open spec fn is_animating_spec(&self, now_ns: u64) -> bool {
        match self.last_purge_anim {
            Some(t) => (if now_ns >= t { now_ns - t } else { 0 }) < PURGE_ANIMATION_NANOS,
            None => false,
        }
    }
}

/// One control per frame: the menu button leads from the home screen to the
/// menu, back from the menu to the home screen and from every page to the
/// menu, a menu row to its page and the memory card to the statistics; any
/// other control leaves the screen unchanged.
pub proof fn lemma_navigation(s: CurrentScreen, a: NavAction)
    ensures
        s == CurrentScreen::Home && a == NavAction::OpenMenu ==> spec_navigate(s, a)
            == CurrentScreen::Menu,
        s == CurrentScreen::Menu && a == NavAction::Back ==> spec_navigate(s, a)
            == CurrentScreen::Home,
        is_menu_page(s) && a == NavAction::Back ==> spec_navigate(s, a) == CurrentScreen::Menu,
        s == CurrentScreen::Menu && a == NavAction::RamCard ==> spec_navigate(s, a)
            == CurrentScreen::Stats,
        forall|t: CurrentScreen|
            s == CurrentScreen::Menu && is_menu_page(t) && a == NavAction::Open(t) ==> spec_navigate(
                s,
                a,
            ) == t,
        spec_navigate(s, a) != s ==> (s == CurrentScreen::Home && a == NavAction::OpenMenu) || (a
            == NavAction::Back && s != CurrentScreen::Home) || (s == CurrentScreen::Menu && (
        a == NavAction::RamCard || a is Open)),
        forall|i: int| 0 <= i < spec_menu_entries().len() ==> is_menu_page(#[trigger] spec_menu_entries()[i].1),
{
}

/// Over the purges run one after another (in one frame, say), the history
/// grows by exactly their number, and the records that were there before stay
/// first, unchanged and in order: `steps[0]` is the history before the first
/// purge and each later entry the history after one more.
pub proof fn lemma_history_across_purges(steps: Seq<Seq<PurgeRecord>>)
    requires
        steps.len() > 0,
        forall|i: int| 0 <= i < steps.len() - 1 ==> adds_one_record(#[trigger] steps[i], steps[i + 1]),
    ensures
        steps.last().len() == steps[0].len() + (steps.len() - 1),
        steps[0].is_prefix_of(steps.last()),
    decreases steps.len(),
{
    if steps.len() > 1 {
        let init = steps.drop_last();
        assert forall|i: int| 0 <= i < init.len() - 1 implies adds_one_record(#[trigger] init[i], init[i + 1]) by {
            assert(adds_one_record(steps[i], steps[i + 1]));
        }
        lemma_history_across_purges(init);
        let prev = steps[steps.len() - 2];
        assert(adds_one_record(steps[steps.len() - 2], steps[steps.len() - 1]));
        assert(init.last() == prev);
        assert forall|j: int| 0 <= j < steps[0].len() implies steps.last()[j] == steps[0][j] by {
            assert(steps.last().drop_last()[j] == steps.last()[j]);
            assert(prev[j] == steps[0][j]);
        }
    }
}

/// From every screen, pressing back at most twice leads to the home screen.
pub proof fn lemma_back_reaches_home(s: CurrentScreen)
    ensures
        s == CurrentScreen::Home || s.spec_back_target() == Some(CurrentScreen::Home) || (
        s.spec_back_target() matches Some(t) && t.spec_back_target() == Some(CurrentScreen::Home)),
{
}

proof fn lemma_sum_within_count_times_max(records: Seq<PurgeRecord>)
    ensures
        freed_sum(records) <= records.len() * freed_max(records),
    decreases records.len(),
{
    if records.len() > 0 {
        let init = records.drop_last();
        lemma_sum_within_count_times_max(init);
        let m0 = freed_max(init);
        let m = freed_max(records);
        assert(m0 <= m);
        assert(init.len() * m0 <= init.len() * m) by (nonlinear_arith)
            requires
                m0 <= m,
        ;
        assert(records.len() * m == init.len() * m + m) by (nonlinear_arith)
            requires
                records.len() == init.len() + 1,
        ;
    }
}

/// The average of a non-empty history never exceeds its largest purge.
pub proof fn lemma_average_within_max(records: Seq<PurgeRecord>)
    requires
        records.len() > 0,
    ensures
        freed_sum(records) / records.len() <= freed_max(records),
{
    lemma_sum_within_count_times_max(records);
    let n = records.len();
    let s = freed_sum(records);
    let m = freed_max(records);
    assert(s / n <= m) by (nonlinear_arith)
        requires
            s <= n * m,
            n > 0,
    ;
}

} // verus!
