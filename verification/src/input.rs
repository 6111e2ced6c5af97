//! Keys and the mouse wheel: what each does in each state of the TUI.
//!
//! `handle_key` and `handle_mouse` change the state; where a key calls for
//! outside work (a verification, a reboot, a teardown, running a terminal
//! command) the result of `handle_key` names it.
use vstd::prelude::*;
use crate::app::{lemma_item_views, App, AppView, LogStateView, Modals, MonitorView, PickerView, SetupView, TerminalView};
use crate::console::{browsed_back, browsed_forward, command_action_ok, command_state, TerminalAction};
use crate::session::reboot_shown;
use crate::app::{event_logged, logged, LogLevel, HISTORY_LEN};
use crate::tabs::{section_after, section_before, tab_after, tab_before, MonitorSection, Tab};
use crate::text::{chars_of, push_char, string_of};

verus! {

/// A key as the TUI tells keys apart.
#[derive(Debug, Clone, Copy, PartialEq, Eq, Structural)]
pub enum Key {
    Char(char),
    Enter,
    Esc,
    Backspace,
    Up,
    Down,
    Left,
    Right,
    PageUp,
    PageDown,
    Home,
    End,
    Tab,
    BackTab,
    F(u8),
    Other,
}

/// A movement of the mouse wheel, or another mouse event.
#[derive(Debug, Clone, Copy, PartialEq, Eq, Structural)]
pub enum Wheel {
    Up,
    Down,
    Other,
}

/// The outside work a key leaves to the caller.
#[derive(Debug, Clone, PartialEq, Eq)]
pub enum KeyAction {
    /// Nothing more.
    Done,
    /// Refresh verification (`refresh_verify`).
    RefreshVerify,
    /// Start the system reboot.
    Reboot,
    /// Run the teardown with the chosen snapshot (an index into the
    /// picker's list), or with none.
    Teardown(Option<usize>),
    /// Commit the Setup tab's edit buffer to the selected item.
    SetupCommit,
    /// Enter on the Setup tab's selected item.
    SetupEnter,
    /// Carry out what the terminal command left to do.
    Terminal(TerminalAction),
}

// ------------------------------------------------------------------ //
//  Scrolling                                                          //
// ------------------------------------------------------------------ //

/// An offset scrolled up by `n`, at most to `total`.
pub open spec fn scrolled_up(o: usize, n: usize, total: usize) -> usize {
    if o + n > total {
        total
    } else {
        (o + n) as usize
    }
}

/// An offset scrolled down by `n`, at least to 0.
pub open spec fn scrolled_down(o: usize, n: usize) -> usize {
    if o > n {
        (o - n) as usize
    } else {
        0
    }
}

pub fn scroll_up(offset: &mut usize, n: usize, total: usize)
    ensures
        *final(offset) == scrolled_up(*old(offset), n, total),
{
    let up = offset.saturating_add(n);
    *offset = if up > total {
        total
    } else {
        up
    };
}

pub fn scroll_down(offset: &mut usize, n: usize)
    ensures
        *final(offset) == scrolled_down(*old(offset), n),
{
    *offset = offset.saturating_sub(n);
}

/// How many rows of each kind the latest snapshot holds.
pub open spec fn snapshot_rows(m: MonitorView, s: MonitorSection) -> usize {
    match m.latest_snapshot {
        Some(snap) => match s {
            MonitorSection::Cpu => snap.cpu@.len() as usize,
            MonitorSection::Net => snap.net@.len() as usize,
            MonitorSection::Disk => snap.disk@.len() as usize,
        },
        None => 0,
    }
}

pub open spec fn scrolled(o: usize, up: bool, n: usize, total: usize) -> usize {
    if up {
        scrolled_up(o, n, total)
    } else {
        scrolled_down(o, n)
    }
}

/// The monitor with its current section scrolled.
pub open spec fn monitor_scrolled(m: MonitorView, up: bool, n: usize) -> MonitorView {
    let total = snapshot_rows(m, m.section);
    match m.section {
        MonitorSection::Cpu => MonitorView { cpu_scroll: scrolled(m.cpu_scroll, up, n, total), ..m },
        MonitorSection::Net => MonitorView { net_scroll: scrolled(m.net_scroll, up, n, total), ..m },
        MonitorSection::Disk => MonitorView { disk_scroll: scrolled(m.disk_scroll, up, n, total), ..m },
    }
}

/// Scrolls the Monitor tab's current section.
pub fn monitor_scroll(app: &mut App, up: bool, n: usize)
    ensures
        final(app)@ == (AppView { monitor: monitor_scrolled(old(app)@.monitor, up, n), ..old(app)@ }),
{
    let (total_cpu, total_net, total_disk) = match &app.monitor.latest_snapshot {
        Some(s) => (s.cpu.len(), s.net.len(), s.disk.len()),
        None => (0, 0, 0),
    };
    match app.monitor.section {
        MonitorSection::Cpu => {
            if up {
                scroll_up(&mut app.monitor.cpu_scroll, n, total_cpu);
            } else {
                scroll_down(&mut app.monitor.cpu_scroll, n);
            }
        },
        MonitorSection::Net => {
            if up {
                scroll_up(&mut app.monitor.net_scroll, n, total_net);
            } else {
                scroll_down(&mut app.monitor.net_scroll, n);
            }
        },
        MonitorSection::Disk => {
            if up {
                scroll_up(&mut app.monitor.disk_scroll, n, total_disk);
            } else {
                scroll_down(&mut app.monitor.disk_scroll, n);
            }
        },
    }
}

pub open spec fn with_terminal_scroll(v: AppView, s: usize) -> AppView {
    AppView { terminal: TerminalView { scroll: s, ..v.terminal }, ..v }
}

pub open spec fn with_log_scroll(v: AppView, s: usize) -> AppView {
    AppView { log: LogStateView { scroll: s, ..v.log }, ..v }
}

/// The state after a wheel movement.
pub open spec fn wheel_state(v: AppView, w: Wheel) -> AppView {
    match w {
        Wheel::Up => match v.active_tab {
            Tab::Terminal => with_terminal_scroll(
                v,
                scrolled_up(v.terminal.scroll, 3, v.terminal.output.len() as usize),
            ),
            Tab::Logs => with_log_scroll(v, scrolled_up(v.log.scroll, 3, v.log.entries.len() as usize)),
            Tab::Monitor => AppView { monitor: monitor_scrolled(v.monitor, true, 3), ..v },
            _ => v,
        },
        Wheel::Down => match v.active_tab {
            Tab::Terminal => with_terminal_scroll(v, scrolled_down(v.terminal.scroll, 3)),
            Tab::Logs => with_log_scroll(v, scrolled_down(v.log.scroll, 3)),
            Tab::Monitor => AppView { monitor: monitor_scrolled(v.monitor, false, 3), ..v },
            _ => v,
        },
        Wheel::Other => v,
    }
}

/// The mouse wheel scrolls the Terminal, Logs and Monitor tabs.
pub fn handle_mouse(app: &mut App, w: Wheel)
    ensures
        final(app)@ == wheel_state(old(app)@, w),
{
    proof {
        lemma_item_views(app.terminal.output@);
        lemma_item_views(app.log.entries@);
    }
    match w {
        Wheel::Up => match app.active_tab {
            Tab::Terminal => {
                let total = app.terminal.output.len();
                scroll_up(&mut app.terminal.scroll, 3, total);
            },
            Tab::Logs => {
                let total = app.log.entries.len();
                scroll_up(&mut app.log.scroll, 3, total);
            },
            Tab::Monitor => monitor_scroll(app, true, 3),
            _ => {},
        },
        Wheel::Down => match app.active_tab {
            Tab::Terminal => scroll_down(&mut app.terminal.scroll, 3),
            Tab::Logs => scroll_down(&mut app.log.scroll, 3),
            Tab::Monitor => monitor_scroll(app, false, 3),
            _ => {},
        },
        Wheel::Other => {},
    }
}

// ------------------------------------------------------------------ //
//  Keys                                                               //
// ------------------------------------------------------------------ //

pub open spec fn is_quit_key(k: Key) -> bool {
    k == Key::Char('q') || k == Key::Char('Q')
}

pub open spec fn quit(v: AppView) -> AppView {
    AppView { should_quit: true, ..v }
}

pub open spec fn with_tab(v: AppView, t: Tab) -> AppView {
    AppView { active_tab: t, ..v }
}

/// Keys while the root warning is shown.
pub open spec fn root_warning_key(v: AppView, k: Key) -> AppView {
    if k == Key::Esc || k == Key::Enter {
        AppView { modals: Modals { root_warning: false, ..v.modals }, ..v }
    } else if is_quit_key(k) {
        quit(v)
    } else {
        v
    }
}

/// The reboot modal closes.
pub open spec fn reboot_dismissed(v: AppView) -> AppView {
    AppView { modals: Modals { reboot: false, reboot_refresh_on_dismiss: false, ..v.modals }, ..v }
}

/// Keys while the reboot modal is shown.
pub open spec fn reboot_key(v: AppView, k: Key) -> AppView {
    if k == Key::Char('r') || k == Key::Char('R') {
        quit(event_logged(reboot_dismissed(v), "reboot"@, "user initiated reboot from modal"@))
    } else if k == Key::Esc || is_quit_key(k) {
        reboot_dismissed(v)
    } else {
        v
    }
}

pub open spec fn reboot_key_action(v: AppView, k: Key) -> KeyAction {
    if k == Key::Char('r') || k == Key::Char('R') {
        KeyAction::Reboot
    } else if (k == Key::Esc || is_quit_key(k)) && v.modals.reboot_refresh_on_dismiss {
        KeyAction::RefreshVerify
    } else {
        KeyAction::Done
    }
}

pub open spec fn with_picker(v: AppView, p: PickerView) -> AppView {
    AppView { teardown: p, ..v }
}

pub open spec fn picker_chosen(v: AppView) -> Option<usize> {
    if v.teardown.idx < v.teardown.snapshots.len() {
        Some(v.teardown.idx)
    } else {
        None
    }
}

/// Keys while the teardown picker is open.
pub open spec fn picker_key(v: AppView, now: Seq<char>, k: Key) -> AppView {
    let p = v.teardown;
    if k == Key::Up || k == Key::Char('k') {
        with_picker(
            v,
            PickerView {
                idx: if p.idx > 0 {
                    (p.idx - 1) as usize
                } else {
                    0
                },
                ..p
            },
        )
    } else if k == Key::Down || k == Key::Char('j') {
        with_picker(
            v,
            PickerView {
                idx: if p.idx + 1 < p.snapshots.len() {
                    (p.idx + 1) as usize
                } else {
                    p.idx
                },
                ..p
            },
        )
    } else if k == Key::Enter {
        let v1 = with_picker(v, PickerView { active: false, ..p });
        match picker_chosen(v) {
            Some(i) => logged(v1, now, LogLevel::Info, "Restoring config from "@ + p.snapshots[i as int].timestamp_str@),
            None => v1,
        }
    } else if k == Key::Char('i') || k == Key::Char('I') {
        with_picker(v, PickerView { preview: !p.preview, ..p })
    } else if k == Key::Esc {
        logged(with_picker(v, PickerView { active: false, ..p }), now, LogLevel::Info, "Teardown cancelled"@)
    } else {
        v
    }
}

pub open spec fn with_setup(v: AppView, s: SetupView) -> AppView {
    AppView { setup: s, ..v }
}

/// Keys while a Setup item is edited.
pub open spec fn edit_key(v: AppView, k: Key) -> AppView {
    let s = v.setup;
    match k {
        Key::Esc => with_setup(v, SetupView { editing: false, edit_buffer: Seq::empty(), ..s }),
        Key::Backspace => with_setup(
            v,
            SetupView {
                edit_buffer: if s.edit_buffer.len() > 0 {
                    s.edit_buffer.drop_last()
                } else {
                    s.edit_buffer
                },
                ..s
            },
        ),
        Key::Char(c) => with_setup(v, SetupView { edit_buffer: s.edit_buffer.push(c), ..s }),
        _ => v,
    }
}

/// The tab that an F-key selects, whatever tab is shown: F1 to F5 for
/// Dashboard, Setup, Monitor, Logs and Terminal.
pub open spec fn fkey_tab(k: Key) -> Option<Tab> {
    if k == Key::F(1) {
        Some(Tab::Dashboard)
    } else if k == Key::F(2) {
        Some(Tab::Setup)
    } else if k == Key::F(3) {
        Some(Tab::Monitor)
    } else if k == Key::F(4) {
        Some(Tab::Logs)
    } else if k == Key::F(5) {
        Some(Tab::Terminal)
    } else {
        None
    }
}

/// Keys that change the tab on every tab: Tab, BackTab and F1 to F5.
pub open spec fn tab_keys(v: AppView, k: Key, ctrl: bool) -> AppView {
    if k == Key::Tab {
        with_tab(v, tab_after(v.active_tab))
    } else if k == Key::BackTab {
        with_tab(v, tab_before(v.active_tab))
    } else if fkey_tab(k) is Some {
        with_tab(v, fkey_tab(k)->0)
    } else {
        v
    }
}

/// Keys on the Terminal tab, other than Enter on the focused prompt.
pub open spec fn terminal_key(v: AppView, k: Key, ctrl: bool) -> AppView {
    let t = v.terminal;
    let total = t.output.len() as usize;
    let f = t.focused;
    if k == Key::PageUp {
        with_terminal_scroll(v, scrolled_up(t.scroll, 10, total))
    } else if k == Key::PageDown {
        with_terminal_scroll(v, scrolled_down(t.scroll, 10))
    } else if k == Key::Home && !f {
        with_terminal_scroll(v, total)
    } else if k == Key::End && !f {
        with_terminal_scroll(v, 0)
    } else if k == Key::Up && !f {
        with_terminal_scroll(v, scrolled_up(t.scroll, 1, total))
    } else if k == Key::Down && !f {
        with_terminal_scroll(v, scrolled_down(t.scroll, 1))
    } else if k == Key::Esc && f {
        AppView { terminal: TerminalView { focused: false, ..t }, ..v }
    } else if k == Key::Backspace && f {
        AppView {
            terminal: TerminalView {
                history_idx: None,
                input: if t.input.len() > 0 {
                    t.input.drop_last()
                } else {
                    t.input
                },
                ..t
            },
            ..v
        }
    } else if k is Char && f {
        AppView { terminal: TerminalView { history_idx: None, input: t.input.push(k->Char_0), ..t }, ..v }
    } else if k == Key::Up && f {
        AppView { terminal: browsed_back(t), ..v }
    } else if k == Key::Down && f {
        AppView { terminal: browsed_forward(t), ..v }
    } else if k == Key::Enter && !f {
        AppView { terminal: TerminalView { focused: true, ..t }, ..v }
    } else if is_quit_key(k) && !f {
        quit(v)
    } else if k == Key::Char('c') && ctrl {
        quit(v)
    } else {
        tab_keys(v, k, ctrl)
    }
}

/// Keys on the Logs tab.
pub open spec fn logs_key(v: AppView, k: Key, ctrl: bool) -> AppView {
    let total = v.log.entries.len() as usize;
    let s = v.log.scroll;
    if k == Key::PageUp {
        with_log_scroll(v, scrolled_up(s, 10, total))
    } else if k == Key::PageDown {
        with_log_scroll(v, scrolled_down(s, 10))
    } else if k == Key::Home {
        with_log_scroll(v, total)
    } else if k == Key::End {
        with_log_scroll(v, 0)
    } else if k == Key::Up {
        with_log_scroll(v, scrolled_up(s, 1, total))
    } else if k == Key::Down {
        with_log_scroll(v, scrolled_down(s, 1))
    } else if is_quit_key(k) || (k == Key::Char('c') && ctrl) {
        quit(v)
    } else {
        tab_keys(v, k, ctrl)
    }
}

/// Keys on the Monitor tab.
pub open spec fn monitor_key(v: AppView, k: Key, ctrl: bool) -> AppView {
    let m = v.monitor;
    if k == Key::Left {
        AppView { monitor: MonitorView { section: section_before(m.section), ..m }, ..v }
    } else if k == Key::Right {
        AppView { monitor: MonitorView { section: section_after(m.section), ..m }, ..v }
    } else if k == Key::PageUp {
        AppView { monitor: monitor_scrolled(m, true, 10), ..v }
    } else if k == Key::PageDown {
        AppView { monitor: monitor_scrolled(m, false, 10), ..v }
    } else if k == Key::Up {
        AppView { monitor: monitor_scrolled(m, true, 1), ..v }
    } else if k == Key::Down {
        AppView { monitor: monitor_scrolled(m, false, 1), ..v }
    } else if k == Key::Home {
        AppView { monitor: MonitorView { cpu_scroll: 999, net_scroll: 999, disk_scroll: 999, ..m }, ..v }
    } else if k == Key::End {
        AppView { monitor: MonitorView { cpu_scroll: 0, net_scroll: 0, disk_scroll: 0, ..m }, ..v }
    } else if is_quit_key(k) || (k == Key::Char('c') && ctrl) {
        quit(v)
    } else {
        tab_keys(v, k, ctrl)
    }
}

/// The Setup item selected after Up: the one before, skipping item 24.
pub open spec fn setup_up(sel: usize) -> usize {
    if sel > 0 {
        if sel - 1 == 24 {
            23
        } else {
            (sel - 1) as usize
        }
    } else {
        sel
    }
}

/// The Setup item selected after Down: the one after, skipping item 24,
/// up to the last of `n` items.
pub open spec fn setup_down(sel: usize, n: usize) -> usize {
    if sel < n - 1 {
        if sel + 1 == 24 {
            25
        } else {
            (sel + 1) as usize
        }
    } else {
        sel
    }
}

/// Keys on the Dashboard and Setup tabs.
pub open spec fn global_key(v: AppView, k: Key, ctrl: bool, n: usize) -> AppView {
    if is_quit_key(k) || (k == Key::Char('c') && ctrl) {
        quit(v)
    } else if k == Key::F(1) {
        with_tab(v, Tab::Dashboard)
    } else if k == Key::F(2) {
        with_tab(v, Tab::Setup)
    } else if k == Key::F(3) {
        with_tab(v, Tab::Monitor)
    } else if k == Key::F(4) {
        with_tab(v, Tab::Logs)
    } else if k == Key::F(5) {
        with_tab(v, Tab::Terminal)
    } else if k == Key::Tab || k == Key::BackTab {
        tab_keys(v, k, ctrl)
    } else if k == Key::Up && v.active_tab == Tab::Setup {
        with_setup(v, SetupView { selected_item: setup_up(v.setup.selected_item), ..v.setup })
    } else if k == Key::Down && v.active_tab == Tab::Setup {
        with_setup(v, SetupView { selected_item: setup_down(v.setup.selected_item, n), ..v.setup })
    } else {
        v
    }
}

pub open spec fn global_key_action(v: AppView, k: Key, ctrl: bool) -> KeyAction {
    if is_quit_key(k) || (k == Key::Char('c') && ctrl) {
        KeyAction::Done
    } else if k == Key::Enter && v.active_tab == Tab::Setup {
        KeyAction::SetupEnter
    } else if k == Key::Char('r') || k == Key::Char('R') {
        KeyAction::RefreshVerify
    } else {
        KeyAction::Done
    }
}

/// Whether the key runs the typed terminal command.
pub open spec fn runs_command(v: AppView, k: Key) -> bool {
    &&& !v.modals.root_warning
    &&& !v.modals.reboot
    &&& !v.teardown.active
    &&& !(v.active_tab == Tab::Setup && v.setup.editing)
    &&& v.active_tab == Tab::Terminal
    &&& k == Key::Enter
    &&& v.terminal.focused
}

/// The state after a key, for every key but one that runs a terminal command.
pub open spec fn key_state(v: AppView, now: Seq<char>, k: Key, ctrl: bool, n: usize) -> AppView {
    if v.modals.root_warning {
        root_warning_key(v, k)
    } else if v.modals.reboot {
        reboot_key(v, k)
    } else if v.teardown.active {
        picker_key(v, now, k)
    } else if v.active_tab == Tab::Setup && v.setup.editing {
        edit_key(v, k)
    } else if v.active_tab == Tab::Terminal {
        terminal_key(v, k, ctrl)
    } else if v.active_tab == Tab::Logs {
        logs_key(v, k, ctrl)
    } else if v.active_tab == Tab::Monitor {
        monitor_key(v, k, ctrl)
    } else {
        global_key(v, k, ctrl, n)
    }
}

/// The work left to the caller after a key, for every key but one that
/// runs a terminal command.
pub open spec fn key_action(v: AppView, k: Key, ctrl: bool) -> KeyAction {
    if v.modals.root_warning {
        KeyAction::Done
    } else if v.modals.reboot {
        reboot_key_action(v, k)
    } else if v.teardown.active {
        if k == Key::Enter {
            KeyAction::Teardown(picker_chosen(v))
        } else {
            KeyAction::Done
        }
    } else if v.active_tab == Tab::Setup && v.setup.editing {
        if k == Key::Enter {
            KeyAction::SetupCommit
        } else {
            KeyAction::Done
        }
    } else if v.active_tab == Tab::Terminal || v.active_tab == Tab::Logs || v.active_tab == Tab::Monitor {
        KeyAction::Done
    } else {
        global_key_action(v, k, ctrl)
    }
}

/// The history index is one the Up key can step back from.
pub open spec fn browsable(v: AppView) -> bool {
    v.terminal.history_idx matches Some(i) ==> i <= v.terminal.history.len()
}

/// A string without its last character.
fn without_last(s: &String) -> (r: String)
    ensures
        r@ == if s@.len() > 0 {
            s@.drop_last()
        } else {
            s@
        },
{
    let v = chars_of(s.as_str());
    if v.len() == 0 {
        return String::new();
    }
    string_of(&v, 0, v.len() - 1)
}

/// The Setup item above `sel`.
fn select_up(sel: usize) -> (r: usize)
    ensures
        r == setup_up(sel),
{
    let mut s = sel;
    if s > 0 {
        s = s - 1;
        if s == 24 && s > 0 {
            s = s - 1;
        }
    }
    s
}

/// The Setup item below `sel`, of `n` items.
fn select_down(sel: usize, n: usize) -> (r: usize)
    requires
        n >= 1,
    ensures
        r == setup_down(sel, n),
{
    let mut s = sel;
    let max = n - 1;
    if s < max {
        s = s + 1;
        if s == 24 {
            s = s + 1;
        }
    }
    s
}

impl App {
    fn terminal_key(&mut self, k: Key, ctrl: bool)
        requires
            old(self).active_tab == Tab::Terminal,
            browsable(old(self)@),
            !runs_command(old(self)@, k),
        ensures
            final(self)@ == terminal_key(old(self)@, k, ctrl),
    {
        proof {
            lemma_item_views(self.terminal.output@);
            lemma_item_views(self.terminal.history@);
        }
        let total = self.terminal.output.len();
        let f = self.terminal.focused;
        match k {
            Key::PageUp => scroll_up(&mut self.terminal.scroll, 10, total),
            Key::PageDown => scroll_down(&mut self.terminal.scroll, 10),
            Key::Home if !f => self.terminal.scroll = total,
            Key::End if !f => self.terminal.scroll = 0,
            Key::Up if !f => scroll_up(&mut self.terminal.scroll, 1, total),
            Key::Down if !f => scroll_down(&mut self.terminal.scroll, 1),
            Key::Esc if f => self.terminal.focused = false,
            Key::Backspace if f => {
                self.terminal.history_idx = None;
                self.terminal.input = without_last(&self.terminal.input);
            },
            Key::Char(c) if f => {
                self.terminal.history_idx = None;
                push_char(&mut self.terminal.input, c);
            },
            Key::Up if f => self.history_prev(),
            Key::Down if f => self.history_next(),
            Key::Enter if !f => self.terminal.focused = true,
            Key::Char('q') if !f => self.should_quit = true,
            Key::Char('Q') if !f => self.should_quit = true,
            Key::Char('c') if ctrl => self.should_quit = true,
            _ => self.tab_key(k, ctrl),
        }
    }

    /// Tab, BackTab and F1 to F5, which change the tab on every tab.
    fn tab_key(&mut self, k: Key, ctrl: bool)
        ensures
            final(self)@ == tab_keys(old(self)@, k, ctrl),
    {
        match k {
            Key::Tab => self.active_tab = self.active_tab.next(),
            Key::BackTab => self.active_tab = self.active_tab.prev(),
            Key::F(1) => self.active_tab = Tab::Dashboard,
            Key::F(2) => self.active_tab = Tab::Setup,
            Key::F(3) => self.active_tab = Tab::Monitor,
            Key::F(4) => self.active_tab = Tab::Logs,
            Key::F(5) => self.active_tab = Tab::Terminal,
            _ => {},
        }
    }

    fn logs_key(&mut self, k: Key, ctrl: bool)
        ensures
            final(self)@ == logs_key(old(self)@, k, ctrl),
    {
        proof {
            lemma_item_views(self.log.entries@);
        }
        let total = self.log.entries.len();
        match k {
            Key::PageUp => scroll_up(&mut self.log.scroll, 10, total),
            Key::PageDown => scroll_down(&mut self.log.scroll, 10),
            Key::Home => self.log.scroll = total,
            Key::End => self.log.scroll = 0,
            Key::Up => scroll_up(&mut self.log.scroll, 1, total),
            Key::Down => scroll_down(&mut self.log.scroll, 1),
            Key::Char('q') | Key::Char('Q') => self.should_quit = true,
            Key::Char('c') if ctrl => self.should_quit = true,
            _ => self.tab_key(k, ctrl),
        }
    }

    fn monitor_key(&mut self, k: Key, ctrl: bool)
        ensures
            final(self)@ == monitor_key(old(self)@, k, ctrl),
    {
        match k {
            Key::Left => self.monitor.section = self.monitor.section.prev(),
            Key::Right => self.monitor.section = self.monitor.section.next(),
            Key::PageUp => monitor_scroll(self, true, 10),
            Key::PageDown => monitor_scroll(self, false, 10),
            Key::Up => monitor_scroll(self, true, 1),
            Key::Down => monitor_scroll(self, false, 1),
            Key::Home => {
                self.monitor.cpu_scroll = 999;
                self.monitor.net_scroll = 999;
                self.monitor.disk_scroll = 999;
            },
            Key::End => {
                self.monitor.cpu_scroll = 0;
                self.monitor.net_scroll = 0;
                self.monitor.disk_scroll = 0;
            },
            Key::Char('q') | Key::Char('Q') => self.should_quit = true,
            Key::Char('c') if ctrl => self.should_quit = true,
            _ => self.tab_key(k, ctrl),
        }
    }

    fn global_key(&mut self, k: Key, ctrl: bool, n: usize) -> (r: KeyAction)
        requires
            n >= 1,
        ensures
            final(self)@ == global_key(old(self)@, k, ctrl, n),
            r == global_key_action(old(self)@, k, ctrl),
    {
        match k {
            Key::Char('q') | Key::Char('Q') => {
                self.should_quit = true;
                KeyAction::Done
            },
            Key::Char('c') if ctrl => {
                self.should_quit = true;
                KeyAction::Done
            },
            Key::F(1) => {
                self.active_tab = Tab::Dashboard;
                KeyAction::Done
            },
            Key::F(2) => {
                self.active_tab = Tab::Setup;
                KeyAction::Done
            },
            Key::F(3) => {
                self.active_tab = Tab::Monitor;
                KeyAction::Done
            },
            Key::F(4) => {
                self.active_tab = Tab::Logs;
                KeyAction::Done
            },
            Key::F(5) => {
                self.active_tab = Tab::Terminal;
                KeyAction::Done
            },
            Key::Tab => {
                self.active_tab = self.active_tab.next();
                KeyAction::Done
            },
            Key::BackTab => {
                self.active_tab = self.active_tab.prev();
                KeyAction::Done
            },
            Key::Up => {
                if self.active_tab == Tab::Setup {
                    self.setup.selected_item = select_up(self.setup.selected_item);
                }
                KeyAction::Done
            },
            Key::Down => {
                if self.active_tab == Tab::Setup {
                    self.setup.selected_item = select_down(self.setup.selected_item, n);
                }
                KeyAction::Done
            },
            Key::Enter => {
                if self.active_tab == Tab::Setup {
                    KeyAction::SetupEnter
                } else {
                    KeyAction::Done
                }
            },
            Key::Char('r') | Key::Char('R') => KeyAction::RefreshVerify,
            _ => KeyAction::Done,
        }
    }
}

/// A key press. `ctrl` tells whether Control was held; `setup_items` is
/// how many items the Setup tab lists. Modal dialogs take keys first, then
/// the teardown picker, a Setup edit and the active tab.
pub fn handle_key(app: &mut App, now: &str, k: Key, ctrl: bool, setup_items: usize) -> (r: KeyAction)
    requires
        setup_items >= 1,
        browsable(old(app)@),
    ensures
        runs_command(old(app)@, k) ==> {
            let v1 = with_terminal_scroll(old(app)@, 0);
            &&& final(app)@ == command_state(v1, now@)
            &&& r matches KeyAction::Terminal(t) && command_action_ok(t, v1)
        },
        !runs_command(old(app)@, k) ==> final(app)@ == key_state(old(app)@, now@, k, ctrl, setup_items) && r
            == key_action(old(app)@, k, ctrl),
{
    if app.modals.root_warning {
        match k {
            Key::Esc | Key::Enter => app.dismiss_root_warning(),
            Key::Char('q') | Key::Char('Q') => app.should_quit = true,
            _ => {},
        }
        return KeyAction::Done;
    }
    if app.modals.reboot {
        return match k {
            Key::Char('r') | Key::Char('R') => {
                app.reboot_now();
                KeyAction::Reboot
            },
            Key::Esc | Key::Char('q') | Key::Char('Q') => {
                if app.dismiss_reboot_modal() {
                    KeyAction::RefreshVerify
                } else {
                    KeyAction::Done
                }
            },
            _ => KeyAction::Done,
        };
    }
    if app.teardown.active {
        return match k {
            Key::Up | Key::Char('k') => {
                app.teardown_picker_up();
                KeyAction::Done
            },
            Key::Down | Key::Char('j') => {
                app.teardown_picker_down();
                KeyAction::Done
            },
            Key::Enter => KeyAction::Teardown(app.teardown_picker_confirm(now)),
            Key::Char('i') | Key::Char('I') => {
                app.teardown.preview = !app.teardown.preview;
                KeyAction::Done
            },
            Key::Esc => {
                app.teardown_picker_cancel(now);
                KeyAction::Done
            },
            _ => KeyAction::Done,
        };
    }
    if app.active_tab == Tab::Setup && app.setup.editing {
        return match k {
            Key::Esc => {
                app.setup.editing = false;
                app.setup.edit_buffer = String::new();
                KeyAction::Done
            },
            Key::Enter => KeyAction::SetupCommit,
            Key::Backspace => {
                app.setup.edit_buffer = without_last(&app.setup.edit_buffer);
                KeyAction::Done
            },
            Key::Char(c) => {
                push_char(&mut app.setup.edit_buffer, c);
                KeyAction::Done
            },
            _ => KeyAction::Done,
        };
    }
    if app.active_tab == Tab::Terminal {
        if k == Key::Enter && app.terminal.focused {
            app.terminal.scroll = 0;
            let t = app.exec_terminal_command(now);
            return KeyAction::Terminal(t);
        }
        app.terminal_key(k, ctrl);
        return KeyAction::Done;
    }
    if app.active_tab == Tab::Logs {
        app.logs_key(k, ctrl);
        return KeyAction::Done;
    }
    if app.active_tab == Tab::Monitor {
        app.monitor_key(k, ctrl);
        return KeyAction::Done;
    }
    app.global_key(k, ctrl, setup_items)
}

/// Scrolling up by `n` and down by `n` again comes back, unless the top
/// of the list stopped the scroll.
pub proof fn lemma_scroll_up_down(o: usize, n: usize, total: usize)
    requires
        o + n <= total,
    ensures
        scrolled_down(scrolled_up(o, n, total), n) == o,
        scrolled_up(o, n, total) <= total,
{
}

/// On the Logs tab with no dialog open, Home shows the oldest entry (the
/// scroll offset becomes the number of entries) and End the newest (offset
/// 0); both leave the tab and the entries as they are.
pub proof fn lemma_logs_home_end(v: AppView, now: Seq<char>, ctrl: bool, n: usize)
    requires
        !v.modals.root_warning,
        !v.modals.reboot,
        !v.teardown.active,
        v.active_tab == Tab::Logs,
        v.log.entries.len() <= usize::MAX,
    ensures
        key_state(v, now, Key::Home, ctrl, n).log.scroll == v.log.entries.len(),
        key_state(v, now, Key::End, ctrl, n).log.scroll == 0,
        key_state(v, now, Key::Home, ctrl, n).log.entries == v.log.entries,
        key_state(v, now, Key::End, ctrl, n).log.entries == v.log.entries,
        key_state(v, now, Key::Home, ctrl, n).active_tab == Tab::Logs,
        key_state(v, now, Key::End, ctrl, n).active_tab == Tab::Logs,
{
}

/// With no dialog open and no Setup item being edited, F1 to F5 show the
/// Dashboard, Setup, Monitor, Logs and Terminal tabs, from whatever tab.
pub proof fn lemma_function_keys(v: AppView, now: Seq<char>, ctrl: bool, n: usize)
    requires
        !v.modals.root_warning,
        !v.modals.reboot,
        !v.teardown.active,
        !(v.active_tab == Tab::Setup && v.setup.editing),
    ensures
        key_state(v, now, Key::F(1), ctrl, n).active_tab == Tab::Dashboard,
        key_state(v, now, Key::F(2), ctrl, n).active_tab == Tab::Setup,
        key_state(v, now, Key::F(3), ctrl, n).active_tab == Tab::Monitor,
        key_state(v, now, Key::F(4), ctrl, n).active_tab == Tab::Logs,
        key_state(v, now, Key::F(5), ctrl, n).active_tab == Tab::Terminal,
{
}

/// On the Terminal tab with the prompt unfocused and no dialog open, Home
/// scrolls to the oldest output line (offset = number of lines) and End
/// back to the newest (offset 0).
pub proof fn lemma_terminal_home_end(v: AppView, now: Seq<char>, ctrl: bool, n: usize)
    requires
        !v.modals.root_warning,
        !v.modals.reboot,
        !v.teardown.active,
        v.active_tab == Tab::Terminal,
        !v.terminal.focused,
        v.terminal.output.len() <= usize::MAX,
    ensures
        key_state(v, now, Key::Home, ctrl, n).terminal.scroll == v.terminal.output.len(),
        key_state(v, now, Key::End, ctrl, n).terminal.scroll == 0,
        key_state(v, now, Key::Home, ctrl, n).terminal.output == v.terminal.output,
        key_state(v, now, Key::End, ctrl, n).active_tab == Tab::Terminal,
{
}

/// On the Monitor tab with no dialog open, Home scrolls every chart back
/// past the most samples a history holds, to its oldest ones, and End back to the newest (offset 0), on the section
/// shown.
pub proof fn lemma_monitor_home_end(v: AppView, now: Seq<char>, ctrl: bool, n: usize)
    requires
        !v.modals.root_warning,
        !v.modals.reboot,
        !v.teardown.active,
        v.active_tab == Tab::Monitor,
    ensures
        key_state(v, now, Key::End, ctrl, n).monitor.cpu_scroll == 0,
        key_state(v, now, Key::End, ctrl, n).monitor.net_scroll == 0,
        key_state(v, now, Key::End, ctrl, n).monitor.disk_scroll == 0,
        key_state(v, now, Key::Home, ctrl, n).monitor.cpu_scroll >= HISTORY_LEN,
        key_state(v, now, Key::Home, ctrl, n).monitor.net_scroll >= HISTORY_LEN,
        key_state(v, now, Key::Home, ctrl, n).monitor.disk_scroll >= HISTORY_LEN,
        key_state(v, now, Key::Home, ctrl, n).monitor.section == v.monitor.section,
        key_state(v, now, Key::End, ctrl, n).monitor.section == v.monitor.section,
{
}

/// Up and Down on the Setup tab keep the selection on a listed item and
/// never on item 24, and Down undoes Up from any item but the first.
pub proof fn lemma_setup_selection(sel: usize, n: usize)
    requires
        sel < n,
        sel != 24,
        n != 25,
    ensures
        setup_up(sel) < n,
        setup_down(sel, n) < n,
        setup_up(sel) != 24,
        setup_down(sel, n) != 24,
        setup_up(sel) <= sel <= setup_down(sel, n),
        sel > 0 ==> setup_down(setup_up(sel), n) == sel,
{
}

} // verus!
