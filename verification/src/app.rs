//! Application state shared across all TUI tabs, and every decision the
//! TUI makes on it.
//!
//! The state holds plain values only. Work that touches the outside world
//! (running libubenchmon, the clock, files, processes, the metric log file)
//! is the caller's: a method that needs such a result takes it as an
//! argument, and a method after which outside work is due says so in what
//! it returns. Times of log entries are passed in as `now`.
use vstd::prelude::*;
use crate::config::{ConfigView, SetupConfig};
use crate::service::{mode_label, ServiceMode};
use crate::snapshot_store::ConfigSnapshot;
use crate::system::{Snapshot, SetupResult, Status, VerifyResult};
use crate::tabs::{MonitorSection, Tab};
use crate::text::{nat_text, push_u64};

verus! {

/// How many samples a history keeps.
pub const HISTORY_LEN: usize = 300;

/// How many terminal commands the history keeps.
pub const CMD_HISTORY_LEN: usize = 500;

#[derive(Debug, Clone, Copy, PartialEq, Eq, Structural)]
pub enum LogLevel {
    Info,
    Warn,
    Error,
    Success,
}

pub open spec fn level_kind(l: LogLevel) -> Seq<char> {
    match l {
        LogLevel::Info => "info"@,
        LogLevel::Warn => "warn"@,
        LogLevel::Error => "error"@,
        LogLevel::Success => "success"@,
    }
}

impl LogLevel {
    /// The event type under which an entry of this level goes to the metric log.
    pub fn event_kind(self) -> (r: &'static str)
        ensures
            r@ == level_kind(self),
    {
        match self {
            LogLevel::Info => "info",
            LogLevel::Warn => "warn",
            LogLevel::Error => "error",
            LogLevel::Success => "success",
        }
    }
}

#[derive(Debug, Clone)]
pub struct LogEntry {
    pub timestamp: String,
    pub level: LogLevel,
    pub message: String,
}

pub struct LogView {
    pub timestamp: Seq<char>,
    pub level: LogLevel,
    pub message: Seq<char>,
}

impl View for LogEntry {
    type V = LogView;

    open spec fn view(&self) -> LogView {
        LogView { timestamp: self.timestamp@, level: self.level, message: self.message@ }
    }
}

// ------------------------------------------------------------------ //
//  Histories                                                          //
// ------------------------------------------------------------------ //

/// The most recent samples of one metric, oldest first, at most `max` of them.
#[derive(Debug, Clone)]
pub struct TimeSeries {
    pub data: Vec<u64>,
    pub label: String,
    pub max: usize,
}

pub struct SeriesView {
    pub data: Seq<u64>,
    pub label: Seq<char>,
    pub max: nat,
}

impl View for TimeSeries {
    type V = SeriesView;

    open spec fn view(&self) -> SeriesView {
        SeriesView { data: self.data@, label: self.label@, max: self.max as nat }
    }
}

/// The last `max` values of `s` (all of them when there are fewer).
pub open spec fn window(s: Seq<u64>, max: nat) -> Seq<u64> {
    if s.len() <= max {
        s
    } else {
        s.skip(s.len() - max)
    }
}

/// The samples after `v` is recorded: the oldest goes once `max` are held.
pub open spec fn series_push(data: Seq<u64>, max: nat, v: u64) -> Seq<u64> {
    (if data.len() >= max && data.len() > 0 {
        data.drop_first()
    } else {
        data
    }).push(v)
}

pub open spec fn new_series(label: Seq<char>) -> SeriesView {
    SeriesView { data: Seq::empty(), label, max: HISTORY_LEN as nat }
}

impl TimeSeries {
    pub fn new(label: &str) -> (r: Self)
        ensures
            r@ == new_series(label@),
    {
        TimeSeries { data: Vec::new(), label: label.to_owned(), max: HISTORY_LEN }
    }

    pub fn push(&mut self, value: u64)
        ensures
            final(self)@ == (SeriesView {
                data: series_push(old(self)@.data, old(self)@.max, value),
                ..old(self)@
            }),
    {
        if self.data.len() >= self.max && self.data.len() > 0 {
            self.data.remove(0);
            assert(old(self).data@.remove(0) =~= old(self).data@.drop_first());
        }
        self.data.push(value);
    }

    /// The samples, oldest first.
    pub fn as_slice(&self) -> (r: Vec<u64>)
        ensures
            r@ == self.data@,
    {
        let mut r: Vec<u64> = Vec::new();
        let mut i: usize = 0;
        while i < self.data.len()
            invariant
                i <= self.data@.len(),
                r@ == self.data@.take(i as int),
            decreases self.data@.len() - i,
        {
            r.push(self.data[i]);
            assert(self.data@.take(i + 1) =~= self.data@.take(i as int).push(self.data@[i as int]));
            i = i + 1;
        }
        assert(self.data@.take(i as int) =~= self.data@);
        r
    }

    /// The newest sample, or 0 when there is none.
    pub fn last(&self) -> (r: u64)
        ensures
            r == if self.data@.len() == 0 {
                0
            } else {
                self.data@.last()
            },
    {
        if self.data.len() == 0 {
            0
        } else {
            self.data[self.data.len() - 1]
        }
    }
}

/// A history always holds the latest `max` samples in order: recording a
/// value into the window of some samples gives the window of those samples
/// followed by the value.
pub proof fn lemma_series_window(s: Seq<u64>, max: nat, v: u64)
    requires
        max >= 1,
    ensures
        series_push(window(s, max), max, v) == window(s.push(v), max),
        window(s, max).len() <= max,
{
    let w = window(s, max);
    if s.len() < max {
        assert(series_push(w, max, v) =~= s.push(v));
    } else if s.len() == max {
        assert(w =~= s);
        assert(series_push(w, max, v) =~= s.push(v).skip(s.push(v).len() - max));
    } else {
        assert(w.len() == max);
        assert(series_push(w, max, v) =~= s.push(v).skip(s.push(v).len() - max));
    }
}

/// The views of the items of a sequence.
#[verifier::opaque]
pub open spec fn item_views<T: View>(v: Seq<T>) -> Seq<T::V> {
    v.map_values(|x: T| x@)
}

pub proof fn lemma_item_views<T: View>(v: Seq<T>)
    ensures
        item_views(v).len() == v.len(),
        forall|i: int| 0 <= i < v.len() ==> #[trigger] item_views(v)[i] == v[i]@,
{
    reveal(item_views);
}

pub proof fn lemma_item_views_push<T: View>(v: Seq<T>, x: T)
    ensures
        item_views(v.push(x)) == item_views(v).push(x@),
{
    reveal(item_views);
    assert(item_views(v.push(x)) =~= item_views(v).push(x@));
}

pub proof fn lemma_item_views_update<T: View>(v: Seq<T>, i: int, x: T)
    requires
        0 <= i < v.len(),
    ensures
        item_views(v.update(i, x)) == item_views(v).update(i, x@),
{
    reveal(item_views);
    assert(item_views(v.update(i, x)) =~= item_views(v).update(i, x@));
}

pub proof fn lemma_item_views_empty<T: View>()
    ensures
        item_views(Seq::<T>::empty()) == Seq::<T::V>::empty(),
{
    reveal(item_views);
    assert(item_views(Seq::<T>::empty()) =~= Seq::<T::V>::empty());
}


// ------------------------------------------------------------------ //
//  The application state                                              //
// ------------------------------------------------------------------ //

/// The background service as the TUI sees it.
#[derive(Debug, Clone, Copy, PartialEq, Eq, Structural)]
pub struct ServiceState {
    /// A background daemon is running (transient or persistent).
    pub active: bool,
    /// The TUI reads snapshots from the daemon's snap file instead of
    /// running its own monitor. Closing the TUI does NOT stop the service.
    pub piggyback: bool,
    /// Mode of the active service (if any).
    pub mode: Option<ServiceMode>,
}

/// The Setup tab's form.
pub struct SetupState {
    pub config: SetupConfig,
    pub result: Option<SetupResult>,
    pub running: bool,
    pub selected_item: usize,
    pub editing: bool,
    pub edit_buffer: String,
}

pub struct SetupView {
    pub config: ConfigView,
    pub result: Option<SetupResult>,
    pub running: bool,
    pub selected_item: usize,
    pub editing: bool,
    pub edit_buffer: Seq<char>,
}

impl View for SetupState {
    type V = SetupView;

    open spec fn view(&self) -> SetupView {
        SetupView {
            config: self.config@,
            result: self.result,
            running: self.running,
            selected_item: self.selected_item,
            editing: self.editing,
            edit_buffer: self.edit_buffer@,
        }
    }
}

/// The modal dialogs.
#[derive(Debug, Clone, Copy, PartialEq, Eq, Structural)]
pub struct Modals {
    /// Shown on startup when not running as root.
    pub root_warning: bool,
    /// Shown after GRUB was modified.
    pub reboot: bool,
    pub reboot_refresh_on_dismiss: bool,
    /// Asks before a teardown while the persistent service is installed.
    pub teardown_service_warn: bool,
}

/// The teardown snapshot picker.
pub struct TeardownPicker {
    pub active: bool,
    pub snapshots: Vec<ConfigSnapshot>,
    pub idx: usize,
    pub preview: bool,
}

pub struct PickerView {
    pub active: bool,
    pub snapshots: Seq<ConfigSnapshot>,
    pub idx: usize,
    pub preview: bool,
}

impl View for TeardownPicker {
    type V = PickerView;

    open spec fn view(&self) -> PickerView {
        PickerView { active: self.active, snapshots: self.snapshots@, idx: self.idx, preview: self.preview }
    }
}

/// The Monitor tab: the latest snapshot and the histories.
pub struct MonitorState {
    /// The TUI runs its own monitor (only when NOT in piggyback mode).
    pub own_monitor: bool,
    pub latest_snapshot: Option<Snapshot>,
    /// Per core: usage in hundredths of a percent.
    pub cpu_history: Vec<TimeSeries>,
    /// Used memory in hundredths of a percent of the total.
    pub mem_history: TimeSeries,
    /// Per interface: received bytes.
    pub net_rx_history: Vec<TimeSeries>,
    /// Per interface: sent bytes.
    pub net_tx_history: Vec<TimeSeries>,
    /// Per disk: I/O requests in progress.
    pub disk_io_history: Vec<TimeSeries>,
    /// Snapshot capture latency in nanoseconds.
    pub capture_latency_history: TimeSeries,
    pub section: MonitorSection,
    pub cpu_scroll: usize,
    pub net_scroll: usize,
    pub disk_scroll: usize,
}

pub struct MonitorView {
    pub own_monitor: bool,
    pub latest_snapshot: Option<Snapshot>,
    pub cpu_history: Seq<SeriesView>,
    pub mem_history: SeriesView,
    pub net_rx_history: Seq<SeriesView>,
    pub net_tx_history: Seq<SeriesView>,
    pub disk_io_history: Seq<SeriesView>,
    pub capture_latency_history: SeriesView,
    pub section: MonitorSection,
    pub cpu_scroll: usize,
    pub net_scroll: usize,
    pub disk_scroll: usize,
}

impl View for MonitorState {
    type V = MonitorView;

    open spec fn view(&self) -> MonitorView {
        MonitorView {
            own_monitor: self.own_monitor,
            latest_snapshot: self.latest_snapshot,
            cpu_history: item_views(self.cpu_history@),
            mem_history: self.mem_history@,
            net_rx_history: item_views(self.net_rx_history@),
            net_tx_history: item_views(self.net_tx_history@),
            disk_io_history: item_views(self.disk_io_history@),
            capture_latency_history: self.capture_latency_history@,
            section: self.section,
            cpu_scroll: self.cpu_scroll,
            net_scroll: self.net_scroll,
            disk_scroll: self.disk_scroll,
        }
    }
}

/// The TUI log and the TUI's own metric log.
pub struct LogState {
    /// The TUI writes its own metric log (only when NOT in piggyback mode).
    pub logging_active: bool,
    /// Path of the metric log being written.
    pub path: Option<String>,
    pub entries: Vec<LogEntry>,
    pub scroll: usize,
    /// Events (type, detail) still to be written to the metric log.
    pub pending_events: Vec<(String, String)>,
}

pub struct LogStateView {
    pub logging_active: bool,
    pub path: Option<Seq<char>>,
    pub entries: Seq<LogView>,
    pub scroll: usize,
    pub pending_events: Seq<(Seq<char>, Seq<char>)>,
}

impl View for LogState {
    type V = LogStateView;

    open spec fn view(&self) -> LogStateView {
        LogStateView {
            logging_active: self.logging_active,
            path: match self.path {
                Some(p) => Some(p@),
                None => None,
            },
            entries: item_views(self.entries@),
            scroll: self.scroll,
            pending_events: item_views(self.pending_events@),
        }
    }
}

/// The Terminal tab.
pub struct TerminalState {
    pub input: String,
    pub output: Vec<String>,
    pub scroll: usize,
    pub focused: bool,
    pub history: Vec<String>,
    pub history_idx: Option<usize>,
    /// What was typed before browsing the history.
    pub draft: String,
}

pub struct TerminalView {
    pub input: Seq<char>,
    pub output: Seq<Seq<char>>,
    pub scroll: usize,
    pub focused: bool,
    pub history: Seq<Seq<char>>,
    pub history_idx: Option<usize>,
    pub draft: Seq<char>,
}

impl View for TerminalState {
    type V = TerminalView;

    open spec fn view(&self) -> TerminalView {
        TerminalView {
            input: self.input@,
            output: item_views(self.output@),
            scroll: self.scroll,
            focused: self.focused,
            history: item_views(self.history@),
            history_idx: self.history_idx,
            draft: self.draft@,
        }
    }
}

/// What the TUI shows and remembers.
pub struct App {
    pub active_tab: Tab,
    pub should_quit: bool,
    pub tick_count: u64,
    pub service: ServiceState,
    pub verify: Option<VerifyResult>,
    pub setup: SetupState,
    pub modals: Modals,
    pub teardown: TeardownPicker,
    pub monitor: MonitorState,
    pub log: LogState,
    pub terminal: TerminalState,
}

pub struct AppView {
    pub active_tab: Tab,
    pub should_quit: bool,
    pub tick_count: u64,
    pub service: ServiceState,
    pub verify: Option<VerifyResult>,
    pub setup: SetupView,
    pub modals: Modals,
    pub teardown: PickerView,
    pub monitor: MonitorView,
    pub log: LogStateView,
    pub terminal: TerminalView,
}

impl View for App {
    type V = AppView;

    open spec fn view(&self) -> AppView {
        AppView {
            active_tab: self.active_tab,
            should_quit: self.should_quit,
            tick_count: self.tick_count,
            service: self.service,
            verify: self.verify,
            setup: self.setup@,
            modals: self.modals,
            teardown: self.teardown@,
            monitor: self.monitor@,
            log: self.log@,
            terminal: self.terminal@,
        }
    }
}

/// The log after an entry is logged at `now`: it joins the TUI log, and the
/// metric log too while one is written.
pub open spec fn log_after(l: LogStateView, now: Seq<char>, level: LogLevel, msg: Seq<char>) -> LogStateView {
    LogStateView {
        entries: l.entries.push(LogView { timestamp: now, level, message: msg }),
        pending_events: if l.logging_active {
            l.pending_events.push((level_kind(level), msg))
        } else {
            l.pending_events
        },
        ..l
    }
}

pub open spec fn logged(v: AppView, now: Seq<char>, level: LogLevel, msg: Seq<char>) -> AppView {
    AppView { log: log_after(v.log, now, level, msg), ..v }
}

/// `v` after an event is written to the metric log, when one is written.
pub open spec fn event_logged(v: AppView, kind: Seq<char>, detail: Seq<char>) -> AppView {
    AppView {
        log: LogStateView {
            pending_events: if v.log.logging_active {
                v.log.pending_events.push((kind, detail))
            } else {
                v.log.pending_events
            },
            ..v.log
        },
        ..v
    }
}

/// `v` with a line added to the terminal output.
pub open spec fn printed(v: AppView, line: Seq<char>) -> AppView {
    AppView { terminal: TerminalView { output: v.terminal.output.push(line), ..v.terminal }, ..v }
}

pub open spec fn welcome_lines() -> Seq<Seq<char>> {
    seq![
        "ubenchmon terminal — type commands here"@,
        "↑↓ browse history  PgUp/PgDn or scroll wheel to scroll output"@,
        "log start / log stop / log status — metric recording"@,
        "service start/stop/enable/disable/status — background daemon"@,
        Seq::empty(),
    ]
}

/// The monitor with nothing recorded yet.
pub open spec fn fresh_monitor(section: MonitorSection, cpu_scroll: usize, net_scroll: usize, disk_scroll: usize) -> MonitorView {
    MonitorView {
        own_monitor: false,
        latest_snapshot: None,
        cpu_history: Seq::empty(),
        mem_history: new_series("RAM Usage %"@),
        net_rx_history: Seq::empty(),
        net_tx_history: Seq::empty(),
        disk_io_history: Seq::empty(),
        capture_latency_history: new_series("Capture Latency μs"@),
        section,
        cpu_scroll,
        net_scroll,
        disk_scroll,
    }
}

/// The state the TUI starts in, before verification and logging start.
pub open spec fn initial_view(now: Seq<char>, root: bool) -> AppView {
    let v = AppView {
        active_tab: Tab::Dashboard,
        should_quit: false,
        tick_count: 0,
        service: ServiceState { active: false, piggyback: false, mode: None },
        verify: None,
        setup: SetupView {
            config: crate::config::default_config(),
            result: None,
            running: false,
            selected_item: 0,
            editing: false,
            edit_buffer: Seq::empty(),
        },
        modals: Modals { root_warning: false, reboot: false, reboot_refresh_on_dismiss: false, teardown_service_warn: false },
        teardown: PickerView { active: false, snapshots: Seq::empty(), idx: 0, preview: false },
        monitor: fresh_monitor(MonitorSection::Cpu, 0, 0, 0),
        log: LogStateView {
            logging_active: false,
            path: None,
            entries: Seq::empty(),
            scroll: 0,
            pending_events: Seq::empty(),
        },
        terminal: TerminalView {
            input: Seq::empty(),
            output: welcome_lines(),
            scroll: 0,
            focused: false,
            history: Seq::empty(),
            history_idx: None,
            draft: Seq::empty(),
        },
    };
    let started = logged(v, now, LogLevel::Info, "ubenchmon TUI started"@);
    if root {
        started
    } else {
        logged(
            logged(
                AppView { modals: Modals { root_warning: true, ..started.modals }, ..started },
                now,
                LogLevel::Error,
                "Not running as root — setup/teardown/perf monitoring disabled"@,
            ),
            now,
            LogLevel::Warn,
            "Restart with: sudo ./ubenchmon"@,
        )
    }
}

/// Histories are kept per interface in pairs (received, sent).
pub open spec fn histories_paired(m: MonitorView) -> bool {
    m.net_rx_history.len() == m.net_tx_history.len()
}

impl MonitorState {
    pub(crate) fn new() -> (r: Self)
        ensures
            r@ == fresh_monitor(MonitorSection::Cpu, 0, 0, 0),
    {
        let r = MonitorState {
            own_monitor: false,
            latest_snapshot: None,
            cpu_history: Vec::new(),
            mem_history: TimeSeries::new("RAM Usage %"),
            net_rx_history: Vec::new(),
            net_tx_history: Vec::new(),
            disk_io_history: Vec::new(),
            capture_latency_history: TimeSeries::new("Capture Latency μs"),
            section: MonitorSection::Cpu,
            cpu_scroll: 0,
            net_scroll: 0,
            disk_scroll: 0,
        };
        proof {
            lemma_item_views_empty::<TimeSeries>();
            assert(r.cpu_history@ =~= Seq::<TimeSeries>::empty());
            assert(r.net_rx_history@ =~= Seq::<TimeSeries>::empty());
            assert(r.net_tx_history@ =~= Seq::<TimeSeries>::empty());
            assert(r.disk_io_history@ =~= Seq::<TimeSeries>::empty());
        }
        r
    }

    /// Drops the latest snapshot and every history; section and scroll stay.
    pub(crate) fn reset(&mut self)
        ensures
            final(self)@ == fresh_monitor(old(self).section, old(self).cpu_scroll, old(self).net_scroll, old(self).disk_scroll),
    {
        self.own_monitor = false;
        self.latest_snapshot = None;
        self.cpu_history.clear();
        self.net_rx_history.clear();
        self.net_tx_history.clear();
        self.disk_io_history.clear();
        self.capture_latency_history = TimeSeries::new("Capture Latency μs");
        self.mem_history = TimeSeries::new("RAM Usage %");
        proof {
            lemma_item_views_empty::<TimeSeries>();
        }
    }
}

impl LogState {
    fn add(&mut self, now: &str, level: LogLevel, msg: &str)
        ensures
            final(self)@ == log_after(old(self)@, now@, level, msg@),
    {
        let ghost old_entries = self.entries@;
        let e = LogEntry { timestamp: now.to_owned(), level, message: msg.to_owned() };
        proof {
            lemma_item_views_push(old_entries, e);
        }
        self.entries.push(e);
        if self.logging_active {
            let ghost old_ev = self.pending_events@;
            let ev = (level.event_kind().to_owned(), msg.to_owned());
            proof {
                lemma_item_views_push(old_ev, ev);
            }
            self.pending_events.push(ev);
        }
    }

    fn event(&mut self, kind: &str, detail: &str)
        ensures
            final(self)@ == (LogStateView {
                pending_events: if old(self).logging_active {
                    old(self)@.pending_events.push((kind@, detail@))
                } else {
                    old(self)@.pending_events
                },
                ..old(self)@
            }),
    {
        if self.logging_active {
            let ghost old_ev = self.pending_events@;
            let ev = (kind.to_owned(), detail.to_owned());
            proof {
                lemma_item_views_push(old_ev, ev);
            }
            self.pending_events.push(ev);
        }
    }
}

impl TerminalState {
    fn print(&mut self, line: String)
        ensures
            final(self)@ == (TerminalView { output: old(self)@.output.push(line@), ..old(self)@ }),
    {
        let ghost old_out = self.output@;
        proof {
            lemma_item_views_push(old_out, line);
        }
        self.output.push(line);
    }
}

impl App {
    /// The state the TUI starts in. `euid_output` is what `id -u` printed.
    /// Verification and metric logging are started by the caller next,
    /// with `refresh_verify` and `logging_started`.
    pub fn new(now: &str, euid_output: &str) -> (r: App)
        ensures
            r@ == initial_view(now@, crate::service::is_root_uid(euid_output@)),
            histories_paired(r@.monitor),
    {
        let terminal = TerminalState {
            input: String::new(),
            output: vec![
                "ubenchmon terminal — type commands here".to_owned(),
                "↑↓ browse history  PgUp/PgDn or scroll wheel to scroll output".to_owned(),
                "log start / log stop / log status — metric recording".to_owned(),
                "service start/stop/enable/disable/status — background daemon".to_owned(),
                String::new(),
            ],
            scroll: 0,
            focused: false,
            history: Vec::new(),
            history_idx: None,
            draft: String::new(),
        };
        let log = LogState {
            logging_active: false,
            path: None,
            entries: Vec::new(),
            scroll: 0,
            pending_events: Vec::new(),
        };
        let teardown = TeardownPicker { active: false, snapshots: Vec::new(), idx: 0, preview: false };
        proof {
            lemma_item_views(terminal.output@);
            assert(item_views(terminal.output@) =~= welcome_lines());
            lemma_item_views_empty::<LogEntry>();
            lemma_item_views_empty::<String>();
            lemma_item_views_empty::<(String, String)>();
            assert(log.entries@ =~= Seq::<LogEntry>::empty());
            assert(terminal.history@ =~= Seq::<String>::empty());
            assert(log.pending_events@ =~= Seq::<(String, String)>::empty());
            assert(teardown@.snapshots =~= Seq::<ConfigSnapshot>::empty());
        }
        let mut app = App {
            active_tab: Tab::Dashboard,
            should_quit: false,
            tick_count: 0,
            service: ServiceState { active: false, piggyback: false, mode: None },
            verify: None,
            setup: SetupState {
                config: SetupConfig::default(),
                result: None,
                running: false,
                selected_item: 0,
                editing: false,
                edit_buffer: String::new(),
            },
            modals: Modals { root_warning: false, reboot: false, reboot_refresh_on_dismiss: false, teardown_service_warn: false },
            teardown,
            monitor: MonitorState::new(),
            log,
            terminal,
        };
        app.log(now, LogLevel::Info, "ubenchmon TUI started");
        let root = crate::service::require_root(euid_output, "TUI").is_ok();
        if !root {
            app.modals.root_warning = true;
            app.log(now, LogLevel::Error, "Not running as root — setup/teardown/perf monitoring disabled");
            app.log(now, LogLevel::Warn, "Restart with: sudo ./ubenchmon");
        }
        app
    }

    /// Adds an entry to the TUI log, and to the metric log while one is written.
    pub fn log(&mut self, now: &str, level: LogLevel, msg: &str)
        ensures
            final(self)@ == logged(old(self)@, now@, level, msg@),
    {
        self.log.add(now, level, msg);
    }

    /// Queues an event for the metric log, when one is written.
    pub fn log_event(&mut self, kind: &str, detail: &str)
        ensures
            final(self)@ == event_logged(old(self)@, kind@, detail@),
    {
        self.log.event(kind, detail);
    }

    /// Hands the queued metric-log events to the caller, oldest first.
    pub fn take_pending_events(&mut self) -> (r: Vec<(String, String)>)
        ensures
            item_views(r@) == old(self)@.log.pending_events,
            final(self)@ == (AppView {
                log: LogStateView { pending_events: Seq::empty(), ..old(self)@.log },
                ..old(self)@
            }),
    {
        let mut r: Vec<(String, String)> = Vec::new();
        std::mem::swap(&mut r, &mut self.log.pending_events);
        proof {
            lemma_item_views_empty::<(String, String)>();
            assert(self.log.pending_events@ =~= Seq::<(String, String)>::empty());
        }
        r
    }

    /// Adds a line to the terminal output.
    pub fn print(&mut self, line: String)
        ensures
            final(self)@ == printed(old(self)@, line@),
    {
        self.terminal.print(line);
    }
}

} // verus!
