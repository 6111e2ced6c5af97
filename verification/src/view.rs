//! What the screen shows, as text: byte counts, scroll hints, section
//! titles, the tab bar, the status bar and the dashboard checklist. Layout
//! and colours are drawn by the caller from what these return.
use vstd::prelude::*;
use crate::app::{App, AppView};
use crate::config::{int_texts, push_joined_ints};
use crate::service::ServiceMode;
use crate::system::VerifyResult;
use crate::tabs::{section_label, tab_hotkey, tab_label, MonitorSection, Tab};
use crate::text::{join, nat_text, one_decimal, push_one_decimal, push_u64, tenths_half_even};

verus! {

// ------------------------------------------------------------------ //
//  Numbers                                                            //
// ------------------------------------------------------------------ //

/// A byte count for people: bytes below 1 KiB, then KiB, MiB and GiB with
/// one decimal.
pub open spec fn bytes_text(b: nat) -> Seq<char> {
    if b >= 1_073_741_824 {
        one_decimal(tenths_half_even(b, 1_073_741_824)) + " GB"@
    } else if b >= 1_048_576 {
        one_decimal(tenths_half_even(b, 1_048_576)) + " MB"@
    } else if b >= 1024 {
        one_decimal(tenths_half_even(b, 1024)) + " KB"@
    } else {
        nat_text(b) + " B"@
    }
}

pub fn fmt_bytes(b: u64) -> (r: String)
    ensures
        r@ == bytes_text(b as nat),
{
    let mut s = String::new();
    if b >= 1_073_741_824 {
        push_one_decimal(&mut s, b, 1_073_741_824);
        s.append(" GB");
    } else if b >= 1_048_576 {
        push_one_decimal(&mut s, b, 1_048_576);
        s.append(" MB");
    } else if b >= 1024 {
        push_one_decimal(&mut s, b, 1024);
        s.append(" KB");
    } else {
        push_u64(&mut s, b);
        s.append(" B");
    }
    s
}

// ------------------------------------------------------------------ //
//  Scrolled lists                                                     //
// ------------------------------------------------------------------ //

/// The hint under a list of `total` rows of which `visible` fit, scrolled
/// by `scroll`: nothing when all fit.
pub open spec fn hint_text(scroll: nat, total: nat, visible: nat) -> Seq<char> {
    if total <= visible {
        Seq::empty()
    } else if scroll == 0 {
        " ("@ + nat_text(total) + " items — ↑/PgUp to scroll) "@
    } else if scroll >= total - visible {
        " (top — ↓/PgDn to scroll down) "@
    } else {
        " ↑"@ + nat_text(scroll) + "/"@ + nat_text((total - visible) as nat) + " — ↑↓/PgUp/PgDn "@
    }
}

pub fn scroll_hint(scroll: usize, total: usize, visible: usize) -> (r: String)
    ensures
        r@ == hint_text(scroll as nat, total as nat, visible as nat),
{
    if total <= visible {
        return String::new();
    }
    let max = total - visible;
    let mut s = String::new();
    if scroll == 0 {
        s.append(" (");
        push_u64(&mut s, total as u64);
        s.append(" items — ↑/PgUp to scroll) ");
    } else if scroll >= max {
        s.append(" (top — ↓/PgDn to scroll down) ");
    } else {
        s.append(" ↑");
        push_u64(&mut s, scroll as u64);
        s.append("/");
        push_u64(&mut s, max as u64);
        s.append(" — ↑↓/PgUp/PgDn ");
    }
    s
}

/// The rows `start..end` shown of `total` when `visible` fit and the list
/// is scrolled by `scroll`: the scroll is held so that the last page is
/// full.
pub open spec fn shown_rows(scroll: nat, total: nat, visible: nat) -> (nat, nat) {
    let max: nat = if total > visible {
        (total - visible) as nat
    } else {
        0
    };
    let start: nat = if scroll < max {
        scroll
    } else {
        max
    };
    (start, if start + visible < total {
        start + visible
    } else {
        total
    })
}

pub fn visible_rows(scroll: usize, total: usize, visible: usize) -> (r: (usize, usize))
    ensures
        (r.0 as nat, r.1 as nat) == shown_rows(scroll as nat, total as nat, visible as nat),
        r.0 <= r.1 <= total,
{
    let max = total.saturating_sub(visible);
    let start = if scroll < max {
        scroll
    } else {
        max
    };
    let end = if start as u128 + (visible as u128) < total as u128 {
        start + visible
    } else {
        total
    };
    (start, end)
}

// ------------------------------------------------------------------ //
//  Titles                                                             //
// ------------------------------------------------------------------ //

pub open spec fn section_hint(shown: bool) -> Seq<char> {
    if shown {
        " [←→ switch  ↑↓ scroll] "@
    } else {
        Seq::empty()
    }
}

/// The CPU section's title; the key hint shows while it is focused.
pub open spec fn cpu_title_text(focused: bool, total: nat) -> Seq<char> {
    " CPU Cores ("@ + nat_text(total) + ") "@ + section_hint(focused)
}

/// The network section's title; the key hint shows while it is focused
/// and not every interface fits.
pub open spec fn net_title_text(focused: bool, total: nat, visible: nat) -> Seq<char> {
    " Network ("@ + nat_text(total) + " ifaces) "@ + section_hint(focused && total > visible)
}

/// The disk section's title; the key hint shows while it is focused and
/// not every device fits.
pub open spec fn disk_title_text(focused: bool, total: nat, visible: nat) -> Seq<char> {
    " Disk I/O ("@ + nat_text(total) + " devs) "@ + section_hint(focused && total > visible)
}

fn push_section_hint(s: &mut String, shown: bool)
    ensures
        final(s)@ == old(s)@ + section_hint(shown),
{
    if shown {
        s.append(" [←→ switch  ↑↓ scroll] ");
    } else {
        assert(old(s)@ + Seq::<char>::empty() =~= old(s)@);
    }
}

pub fn cpu_title(app: &App, total: usize) -> (r: String)
    ensures
        r@ == cpu_title_text(app.monitor.section == MonitorSection::Cpu, total as nat),
{
    let mut s = String::new();
    s.append(" CPU Cores (");
    push_u64(&mut s, total as u64);
    s.append(") ");
    push_section_hint(&mut s, app.monitor.section == MonitorSection::Cpu);
    s
}

pub fn net_title(app: &App, total: usize, visible: usize) -> (r: String)
    ensures
        r@ == net_title_text(app.monitor.section == MonitorSection::Net, total as nat, visible as nat),
{
    let mut s = String::new();
    s.append(" Network (");
    push_u64(&mut s, total as u64);
    s.append(" ifaces) ");
    push_section_hint(&mut s, app.monitor.section == MonitorSection::Net && total > visible);
    s
}

pub fn disk_title(app: &App, total: usize, visible: usize) -> (r: String)
    ensures
        r@ == disk_title_text(app.monitor.section == MonitorSection::Disk, total as nat, visible as nat),
{
    let mut s = String::new();
    s.append(" Disk I/O (");
    push_u64(&mut s, total as u64);
    s.append(" devs) ");
    push_section_hint(&mut s, app.monitor.section == MonitorSection::Disk && total > visible);
    s
}

/// A tab's title in the tab bar: its function key and its label.
pub open spec fn tab_title_text(t: Tab) -> Seq<char> {
    " "@ + tab_hotkey(t) + " "@ + tab_label(t) + " "@
}

pub fn tab_title(t: Tab) -> (r: String)
    ensures
        r@ == tab_title_text(t),
{
    let mut s = String::new();
    s.append(" ");
    s.append(t.hotkey());
    s.append(" ");
    s.append(t.label());
    s.append(" ");
    s
}

// ------------------------------------------------------------------ //
//  Status bar                                                         //
// ------------------------------------------------------------------ //

/// Whether the last verification passed every check.
pub open spec fn is_ready(v: AppView) -> bool {
    match v.verify {
        Some(r) => r.all_checks_passed,
        None => false,
    }
}

pub fn ready(app: &App) -> (r: bool)
    ensures
        r == is_ready(app@),
{
    match &app.verify {
        Some(v) => v.all_checks_passed,
        None => false,
    }
}

/// Who records metrics, as the status bar shows it.
#[derive(Debug, Clone, Copy, PartialEq, Eq, Structural)]
pub enum Recorder {
    /// The TUI piggybacks on a daemon in the given mode.
    Daemon(Option<ServiceMode>),
    /// A daemon runs beside the TUI's own monitor.
    DaemonBeside,
    /// The TUI writes its own metric log.
    OwnLog,
    /// Nothing is recorded.
    Nobody,
}

pub open spec fn recorder_of(v: AppView) -> Recorder {
    if v.service.piggyback {
        Recorder::Daemon(v.service.mode)
    } else if v.service.active {
        Recorder::DaemonBeside
    } else if v.log.logging_active {
        Recorder::OwnLog
    } else {
        Recorder::Nobody
    }
}

pub open spec fn recorder_text(r: Recorder) -> Seq<char> {
    match r {
        Recorder::Daemon(m) => " ◉ SVC["@ + match m {
            Some(ServiceMode::Persistent) => "P"@,
            Some(ServiceMode::Transient) => "T"@,
            None => "?"@,
        } + "] "@,
        Recorder::DaemonBeside => " ● SVC "@,
        Recorder::OwnLog => " ◉ LOG "@,
        Recorder::Nobody => " ○ "@,
    }
}

/// Who records metrics, and the indicator's text.
pub fn recorder(app: &App) -> (r: (Recorder, String))
    ensures
        r.0 == recorder_of(app@),
        r.1@ == recorder_text(r.0),
{
    if app.service.piggyback {
        let mut s = String::new();
        s.append(" ◉ SVC[");
        match app.service.mode {
            Some(ServiceMode::Persistent) => s.append("P"),
            Some(ServiceMode::Transient) => s.append("T"),
            None => s.append("?"),
        }
        s.append("] ");
        (Recorder::Daemon(app.service.mode), s)
    } else if app.service.active {
        (Recorder::DaemonBeside, " ● SVC ".to_owned())
    } else if app.log.logging_active {
        (Recorder::OwnLog, " ◉ LOG ".to_owned())
    } else {
        (Recorder::Nobody, " ○ ".to_owned())
    }
}

/// What the right end of the status bar shows.
#[derive(Debug, Clone, Copy, PartialEq, Eq, Structural)]
pub enum HintKind {
    RootWarning,
    RebootPending,
    Picker,
    Keys,
}

pub open spec fn hint_kind(v: AppView) -> HintKind {
    if v.modals.root_warning {
        HintKind::RootWarning
    } else if v.modals.reboot {
        HintKind::RebootPending
    } else if v.teardown.active {
        HintKind::Picker
    } else {
        HintKind::Keys
    }
}

/// The keys that work in the current state.
pub open spec fn keys_text(v: AppView) -> Seq<char> {
    if v.active_tab == Tab::Monitor {
        "←→=section ["@ + section_label(v.monitor.section) + "]  ↑↓/PgUp/PgDn/wheel=scroll  Home/End"@
    } else if v.setup.editing {
        "Enter=confirm  Esc=cancel"@
    } else if v.active_tab == Tab::Terminal && v.terminal.focused {
        "↑↓=history  PgUp/PgDn/wheel=scroll  Enter=run  Esc=unfocus"@
    } else if v.active_tab == Tab::Terminal {
        "Enter=focus  ↑↓/PgUp/PgDn/wheel=scroll  Home/End=top/btm"@
    } else if v.active_tab == Tab::Logs {
        "↑↓/PgUp/PgDn/wheel=scroll  Home=oldest  End=newest"@
    } else if v.service.piggyback {
        "q:Quit TUI  Tab:Switch  R:Refresh  — daemon keeps running after quit"@
    } else {
        "q:Quit  Tab:Switch  R:Refresh  ↑↓:Navigate  Enter:Edit/Toggle"@
    }
}

pub open spec fn status_hint_text(v: AppView) -> Seq<char> {
    match hint_kind(v) {
        HintKind::RootWarning => " ⚠ NOT ROOT — Enter/Esc to continue  Q to quit "@,
        HintKind::RebootPending => " ⚠ REBOOT PENDING — R to reboot / Esc to dismiss "@,
        HintKind::Picker => " PICKER: ↑↓ select  Enter confirm  i preview  Esc cancel "@,
        HintKind::Keys => keys_text(v),
    }
}

/// The status bar's hint: a pending dialog first, else the keys that work.
pub fn status_hint(app: &App) -> (r: (HintKind, String))
    ensures
        r.0 == hint_kind(app@),
        r.1@ == status_hint_text(app@),
{
    if app.modals.root_warning {
        (HintKind::RootWarning, " ⚠ NOT ROOT — Enter/Esc to continue  Q to quit ".to_owned())
    } else if app.modals.reboot {
        (HintKind::RebootPending, " ⚠ REBOOT PENDING — R to reboot / Esc to dismiss ".to_owned())
    } else if app.teardown.active {
        (HintKind::Picker, " PICKER: ↑↓ select  Enter confirm  i preview  Esc cancel ".to_owned())
    } else if app.active_tab == Tab::Monitor {
        let mut s = String::new();
        s.append("←→=section [");
        s.append(app.monitor.section.label());
        s.append("]  ↑↓/PgUp/PgDn/wheel=scroll  Home/End");
        (HintKind::Keys, s)
    } else if app.setup.editing {
        (HintKind::Keys, "Enter=confirm  Esc=cancel".to_owned())
    } else if app.active_tab == Tab::Terminal && app.terminal.focused {
        (HintKind::Keys, "↑↓=history  PgUp/PgDn/wheel=scroll  Enter=run  Esc=unfocus".to_owned())
    } else if app.active_tab == Tab::Terminal {
        (HintKind::Keys, "Enter=focus  ↑↓/PgUp/PgDn/wheel=scroll  Home/End=top/btm".to_owned())
    } else if app.active_tab == Tab::Logs {
        (HintKind::Keys, "↑↓/PgUp/PgDn/wheel=scroll  Home=oldest  End=newest".to_owned())
    } else if app.service.piggyback {
        (HintKind::Keys, "q:Quit TUI  Tab:Switch  R:Refresh  — daemon keeps running after quit".to_owned())
    } else {
        (HintKind::Keys, "q:Quit  Tab:Switch  R:Refresh  ↑↓:Navigate  Enter:Edit/Toggle".to_owned())
    }
}

/// The tick counter as the status bar shows it.
pub fn tick_text(app: &App) -> (r: String)
    ensures
        r@ == "Tick #"@ + nat_text(app.tick_count as nat),
{
    let mut s = String::new();
    s.append("Tick #");
    push_u64(&mut s, app.tick_count);
    s
}

// ------------------------------------------------------------------ //
//  Dashboard                                                          //
// ------------------------------------------------------------------ //

/// A list of integers as `{:?}` writes it: `[2, 3, 4]`.
pub open spec fn int_list_text(v: Seq<i32>) -> Seq<char> {
    "["@ + join(int_texts(v), ", "@) + "]"@
}

/// The verification checklist: whether each check passed, and its text.
pub open spec fn checklist_items(v: VerifyResult) -> Seq<(bool, Seq<char>)> {
    seq![
        (v.smt_disabled, if v.smt_disabled {
            "SMT / Hyper-Threading disabled (BIOS)"@
        } else {
            "SMT / Hyper-Threading ENABLED — disable in BIOS/UEFI"@
        }),
        (v.cores_isolated, "CPU cores isolated (isolcpus) "@ + int_list_text(v.isolated_core_list@)),
        (v.nohz_full_active, "nohz_full (tickless) active"@),
        (v.frequency_boost_off, "Frequency boost disabled"@),
        (v.swap_off, "Swap disabled"@),
        (v.irqbalance_stopped, "irqbalance stopped"@),
        (v.running_bare_metal, "Running on bare metal"@),
        (v.ns_server_exists && v.ns_client_exists, "Network namespaces (ns_server, ns_client)"@),
        (v.netem_active, "NetEm active on veth"@),
        (v.offloading_disabled, "TSO/GSO/GRO offloading disabled"@),
    ]
}

pub fn checklist(v: &VerifyResult) -> (r: Vec<(bool, String)>)
    ensures
        r@.len() == checklist_items(*v).len(),
        forall|i: int| 0 <= i < r@.len() ==> #[trigger] r@[i].0 == checklist_items(*v)[i].0 && r@[i].1@
            == checklist_items(*v)[i].1,
{
    let smt = if v.smt_disabled {
        "SMT / Hyper-Threading disabled (BIOS)".to_owned()
    } else {
        "SMT / Hyper-Threading ENABLED — disable in BIOS/UEFI".to_owned()
    };
    let mut cores = String::new();
    cores.append("CPU cores isolated (isolcpus) ");
    cores.append("[");
    push_joined_ints(&mut cores, &v.isolated_core_list, ", ");
    cores.append("]");
    let r = vec![
        (v.smt_disabled, smt),
        (v.cores_isolated, cores),
        (v.nohz_full_active, "nohz_full (tickless) active".to_owned()),
        (v.frequency_boost_off, "Frequency boost disabled".to_owned()),
        (v.swap_off, "Swap disabled".to_owned()),
        (v.irqbalance_stopped, "irqbalance stopped".to_owned()),
        (v.running_bare_metal, "Running on bare metal".to_owned()),
        (v.ns_server_exists && v.ns_client_exists, "Network namespaces (ns_server, ns_client)".to_owned()),
        (v.netem_active, "NetEm active on veth".to_owned()),
        (v.offloading_disabled, "TSO/GSO/GRO offloading disabled".to_owned()),
    ];
    assert(r@[1].1@ =~= checklist_items(*v)[1].1);
    r
}

/// The checklist's title.
pub open spec fn checklist_title_text(ready: bool) -> Seq<char> {
    if ready {
        " Checklist — ALL PASSED ✓ "@
    } else {
        " Checklist — ISSUES FOUND "@
    }
}

pub fn checklist_title(ready: bool) -> (r: &'static str)
    ensures
        r@ == checklist_title_text(ready),
{
    if ready {
        " Checklist — ALL PASSED ✓ "
    } else {
        " Checklist — ISSUES FOUND "
    }
}

// ------------------------------------------------------------------ //
//  Lists pinned to the newest line (Logs and Terminal)                //
// ------------------------------------------------------------------ //

/// The rows `start..end` shown of `total` when `visible` fit and the list
/// is scrolled up by `scroll` from the newest line, and the scroll held
/// so that the oldest page is full.
pub open spec fn bottom_rows(scroll: nat, total: nat, visible: nat) -> (nat, nat, nat) {
    let max: nat = if total > visible {
        (total - visible) as nat
    } else {
        0
    };
    let up: nat = if scroll < max {
        scroll
    } else {
        max
    };
    let start: nat = (max - up) as nat;
    (start, if start + visible < total {
        start + visible
    } else {
        total
    }, up)
}

pub fn pinned_rows(scroll: usize, total: usize, visible: usize) -> (r: (usize, usize, usize))
    ensures
        (r.0 as nat, r.1 as nat, r.2 as nat) == bottom_rows(scroll as nat, total as nat, visible as nat),
        r.0 <= r.1 <= total,
{
    let max = total.saturating_sub(visible);
    let up = if scroll < max {
        scroll
    } else {
        max
    };
    let start = max - up;
    let end = if start as u128 + (visible as u128) < total as u128 {
        start + visible
    } else {
        total
    };
    (start, end, up)
}

/// The hint under the Logs tab.
pub open spec fn logs_hint_text(up: nat, total: nat, visible: nat) -> Seq<char> {
    if up > 0 {
        " ↑"@ + nat_text(up) + " lines — End to snap bottom "@
    } else if total > visible {
        " (at bottom — PgUp/↑ to scroll) "@
    } else {
        Seq::empty()
    }
}

pub fn logs_hint(up: usize, total: usize, visible: usize) -> (r: String)
    ensures
        r@ == logs_hint_text(up as nat, total as nat, visible as nat),
{
    let mut s = String::new();
    if up > 0 {
        s.append(" ↑");
        push_u64(&mut s, up as u64);
        s.append(" lines — End to snap bottom ");
    } else if total > visible {
        s.append(" (at bottom — PgUp/↑ to scroll) ");
    }
    s
}

/// The hint under the Terminal tab's output.
pub open spec fn terminal_hint_text(up: nat) -> Seq<char> {
    if up > 0 {
        " ↑"@ + nat_text(up) + " lines — PgDn/End to snap bottom "@
    } else {
        Seq::empty()
    }
}

pub fn terminal_hint(up: usize) -> (r: String)
    ensures
        r@ == terminal_hint_text(up as nat),
{
    let mut s = String::new();
    if up > 0 {
        s.append(" ↑");
        push_u64(&mut s, up as u64);
        s.append(" lines — PgDn/End to snap bottom ");
    }
    s
}

/// The title of the Terminal tab's input bar: the keys, and while the
/// prompt is focused the place in the history.
pub open spec fn input_title_text(v: AppView) -> Seq<char> {
    if v.terminal.focused {
        " Input (Esc=unfocus  ↑↓=history)"@ + match v.terminal.history_idx {
            Some(i) => " history "@ + nat_text(i as nat + 1) + "/"@ + nat_text(v.terminal.history.len())
                + " "@,
            None => if v.terminal.history.len() > 0 {
                " "@ + nat_text(v.terminal.history.len()) + " cmds "@
            } else {
                Seq::empty()
            },
        }
    } else {
        " Input (Enter=focus) "@
    }
}

pub fn input_title(app: &App) -> (r: String)
    ensures
        r@ == input_title_text(app@),
{
    proof {
        crate::app::lemma_item_views(app.terminal.history@);
    }
    if !app.terminal.focused {
        return " Input (Enter=focus) ".to_owned();
    }
    let mut s = String::new();
    s.append(" Input (Esc=unfocus  ↑↓=history)");
    let n = app.terminal.history.len();
    match app.terminal.history_idx {
        Some(i) => {
            s.append(" history ");
            crate::text::push_u128(&mut s, i as u128 + 1);
            s.append("/");
            push_u64(&mut s, n as u64);
            s.append(" ");
        },
        None => {
            if n > 0 {
                s.append(" ");
                push_u64(&mut s, n as u64);
                s.append(" cmds ");
            }
        },
    }
    assert(s@ =~= input_title_text(app@));
    s
}

/// How a line of terminal output is coloured.
#[derive(Debug, Clone, Copy, PartialEq, Eq, Structural)]
pub enum LineKind {
    /// An echoed command (`$ ...`).
    Command,
    /// Error output of a command (`ERR:...`).
    Error,
    /// A warning (`WARNING...`).
    Warning,
    Plain,
}

pub open spec fn line_kind_of(l: Seq<char>) -> LineKind {
    if crate::text::starts_with(l, "$ "@) {
        LineKind::Command
    } else if crate::text::starts_with(l, "ERR:"@) {
        LineKind::Error
    } else if crate::text::starts_with(l, "WARNING"@) {
        LineKind::Warning
    } else {
        LineKind::Plain
    }
}

pub fn line_kind(l: &str) -> (r: LineKind)
    ensures
        r == line_kind_of(l@),
{
    let v = crate::text::chars_of(l);
    let a = crate::text::chars_of("$ ");
    let b = crate::text::chars_of("ERR:");
    let c = crate::text::chars_of("WARNING");
    assert(v@.skip(0) =~= v@);
    if crate::text::starts_with_at(&v, 0, &a) {
        LineKind::Command
    } else if crate::text::starts_with_at(&v, 0, &b) {
        LineKind::Error
    } else if crate::text::starts_with_at(&v, 0, &c) {
        LineKind::Warning
    } else {
        LineKind::Plain
    }
}

/// While the TUI piggybacks on a daemon, the status bar shows `◉ SVC[T]`
/// for a transient daemon and `◉ SVC[P]` for a persistent one.
pub proof fn lemma_piggyback_indicator(v: AppView)
    requires
        v.service.piggyback,
    ensures
        v.service.mode == Some(ServiceMode::Transient) ==> recorder_text(recorder_of(v)) == " ◉ SVC[T] "@,
        v.service.mode == Some(ServiceMode::Persistent) ==> recorder_text(recorder_of(v)) == " ◉ SVC[P] "@,
{
    reveal_strlit(" ◉ SVC[");
    reveal_strlit("T");
    reveal_strlit("P");
    reveal_strlit("] ");
    reveal_strlit(" ◉ SVC[T] ");
    reveal_strlit(" ◉ SVC[P] ");
    assert(" ◉ SVC["@ + "T"@ + "] "@ =~= " ◉ SVC[T] "@);
    assert(" ◉ SVC["@ + "P"@ + "] "@ =~= " ◉ SVC[P] "@);
}

} // verus!
