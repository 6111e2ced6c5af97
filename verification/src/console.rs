//! The Terminal tab: the command history, the built-in commands and what
//! each of them prints.
//!
//! `exec_terminal_command` takes the typed line and handles what needs no
//! outside work; otherwise its result names the work (a verification, the
//! metric log, the daemon, a shell) and the caller hands the outcome back
//! to the matching `report_*`, `service_*` or `shell_*` method.
use vstd::prelude::*;
use crate::app::{
    item_views, lemma_item_views, lemma_item_views_empty, lemma_item_views_push, logged, printed, App, AppView,
    LogLevel, TerminalState, TerminalView, CMD_HISTORY_LEN,
};
use crate::logger::{fmt_size, size_text};
use crate::session::{logging_stopped, service_cleared};
use crate::system::VerifyResult;
use crate::text::{chars_of, lines_in, lines_of, nat_text, push_u64, str_is, string_of};

verus! {

/// The built-in commands; anything else goes to a shell.
#[derive(Debug, Clone, Copy, PartialEq, Eq, Structural)]
pub enum Command {
    Verify,
    LogStart,
    LogStop,
    LogStatus,
    ServiceStart,
    ServiceStop,
    ServiceEnable,
    ServiceDisable,
    ServiceStatus,
    Clear,
    Help,
    Quit,
    Shell,
}

pub open spec fn command_of(c: Seq<char>) -> Command {
    if c == "ubenchmon verify"@ || c == "verify"@ {
        Command::Verify
    } else if c == "log start"@ {
        Command::LogStart
    } else if c == "log stop"@ {
        Command::LogStop
    } else if c == "log status"@ {
        Command::LogStatus
    } else if c == "service start"@ {
        Command::ServiceStart
    } else if c == "service stop"@ {
        Command::ServiceStop
    } else if c == "service enable"@ {
        Command::ServiceEnable
    } else if c == "service disable"@ {
        Command::ServiceDisable
    } else if c == "service status"@ {
        Command::ServiceStatus
    } else if c == "clear"@ {
        Command::Clear
    } else if c == "help"@ {
        Command::Help
    } else if c == "quit"@ || c == "exit"@ {
        Command::Quit
    } else {
        Command::Shell
    }
}

/// Which command a typed line is.
pub fn classify(c: &str) -> (r: Command)
    ensures
        r == command_of(c@),
{
    if str_is(c, "ubenchmon verify") || str_is(c, "verify") {
        Command::Verify
    } else if str_is(c, "log start") {
        Command::LogStart
    } else if str_is(c, "log stop") {
        Command::LogStop
    } else if str_is(c, "log status") {
        Command::LogStatus
    } else if str_is(c, "service start") {
        Command::ServiceStart
    } else if str_is(c, "service stop") {
        Command::ServiceStop
    } else if str_is(c, "service enable") {
        Command::ServiceEnable
    } else if str_is(c, "service disable") {
        Command::ServiceDisable
    } else if str_is(c, "service status") {
        Command::ServiceStatus
    } else if str_is(c, "clear") {
        Command::Clear
    } else if str_is(c, "help") {
        Command::Help
    } else if str_is(c, "quit") || str_is(c, "exit") {
        Command::Quit
    } else {
        Command::Shell
    }
}

/// The outside work a command leaves to the caller.
#[derive(Debug, Clone, PartialEq, Eq)]
pub enum TerminalAction {
    /// Nothing: the command is done.
    Done,
    /// Refresh verification (`refresh_verify`), then `report_verify`.
    Verify,
    /// Open the metric log if none is written (`logging_started`), then
    /// `report_log_path`.
    StartLogging,
    /// Build the service status, then `report_daemon_logging`.
    DaemonLogStatus,
    /// Read the size of the metric log, then `report_logging_active`.
    ActiveLogStatus,
    /// Look for a running daemon, then `service_start_check`.
    ServiceStart,
    /// Look for a running daemon and the systemd unit, then `service_stop_check`.
    ServiceStop,
    /// Install and start the persistent service, then `service_enable_done`.
    ServiceEnable,
    /// Stop and remove the persistent service, then `service_disable_done`.
    ServiceDisable,
    /// Build the service status, then `report_service_status`.
    ServiceStatus,
    /// Run the line in a shell, then `shell_output` or `shell_failed`.
    Shell(String),
}

/// The action for a command that needs no shell.
pub open spec fn plain_action(c: Command, v: AppView) -> TerminalAction {
    match c {
        Command::Verify => TerminalAction::Verify,
        Command::LogStart => if v.service.piggyback {
            TerminalAction::Done
        } else {
            TerminalAction::StartLogging
        },
        Command::LogStatus => if v.service.piggyback {
            TerminalAction::DaemonLogStatus
        } else if v.log.logging_active {
            TerminalAction::ActiveLogStatus
        } else {
            TerminalAction::Done
        },
        Command::ServiceStart => TerminalAction::ServiceStart,
        Command::ServiceStop => TerminalAction::ServiceStop,
        Command::ServiceEnable => TerminalAction::ServiceEnable,
        Command::ServiceDisable => TerminalAction::ServiceDisable,
        Command::ServiceStatus => TerminalAction::ServiceStatus,
        _ => TerminalAction::Done,
    }
}

/// The history after `cmd` is run: it is added unless it repeats the last
/// command, and the oldest goes once more than `CMD_HISTORY_LEN` are held.
pub open spec fn history_after(h: Seq<Seq<char>>, cmd: Seq<char>) -> Seq<Seq<char>> {
    if h.len() > 0 && h.last() == cmd {
        h
    } else if h.len() + 1 > CMD_HISTORY_LEN {
        h.push(cmd).drop_first()
    } else {
        h.push(cmd)
    }
}

/// The terminal with the typed line taken away.
pub open spec fn input_taken(t: TerminalView) -> TerminalView {
    TerminalView { input: Seq::empty(), history_idx: None, draft: Seq::empty(), ..t }
}

/// `v` after the typed line is taken, remembered and echoed.
pub open spec fn entered(v: AppView) -> AppView {
    let cmd = v.terminal.input;
    AppView {
        terminal: TerminalView {
            history: history_after(v.terminal.history, cmd),
            output: v.terminal.output.push("$ "@ + cmd),
            ..input_taken(v.terminal)
        },
        ..v
    }
}

pub open spec fn help_lines() -> Seq<Seq<char>> {
    seq![
        "Built-in commands:"@,
        "  verify                   — re-run system verification"@,
        "  log start/stop/status    — toggle/check NDJSON metric recording"@,
        "  service start            — start background daemon (transient)"@,
        "  service stop             — stop daemon (TUI still closes normally)"@,
        "  service enable           — install systemd unit (persistent, reboot-safe)"@,
        "  service disable          — remove systemd unit + stop daemon"@,
        "  service status           — show daemon PID, mode, log path"@,
        "  clear / quit             — clear output / exit TUI"@,
        "When a service is active, closing the TUI does NOT stop monitoring."@,
        "Only 'service stop' or 'service disable' can stop the daemon."@,
    ]
}

/// `v` with lines added to the terminal output.
pub open spec fn printed_all(v: AppView, lines: Seq<Seq<char>>) -> AppView {
    AppView { terminal: TerminalView { output: v.terminal.output + lines, ..v.terminal }, ..v }
}

/// What a built-in command does by itself, once the line is entered.
pub open spec fn command_done(v: AppView, now: Seq<char>, c: Command) -> AppView {
    match c {
        Command::LogStart => if v.service.piggyback {
            printed(v, "Daemon is already logging — use 'service status' to see log path."@)
        } else {
            v
        },
        Command::LogStop => if v.service.piggyback {
            printed(v, "Logging is owned by the daemon — use 'service stop' to stop it."@)
        } else {
            printed(logging_stopped(v, now), "Metric logging stopped."@)
        },
        Command::LogStatus => if !v.service.piggyback && !v.log.logging_active {
            printed(v, "Logging INACTIVE — type 'log start' to enable."@)
        } else {
            v
        },
        Command::ServiceEnable => printed(v, "Installing systemd unit + starting persistent daemon..."@),
        Command::ServiceDisable => printed(v, "Stopping and disabling persistent service..."@),
        Command::Clear => AppView { terminal: TerminalView { output: Seq::empty(), ..v.terminal }, ..v },
        Command::Help => printed_all(v, help_lines()),
        Command::Quit => AppView { should_quit: true, ..v },
        _ => v,
    }
}

/// The state after the typed line is run.
pub open spec fn command_state(v: AppView, now: Seq<char>) -> AppView {
    if v.terminal.input.len() == 0 {
        AppView { terminal: input_taken(v.terminal), ..v }
    } else {
        command_done(entered(v), now, command_of(v.terminal.input))
    }
}

/// What the caller does next after the typed line is run.
pub open spec fn command_action_ok(r: TerminalAction, v: AppView) -> bool {
    let cmd = v.terminal.input;
    if cmd.len() == 0 {
        r == TerminalAction::Done
    } else if command_of(cmd) == Command::Shell {
        r matches TerminalAction::Shell(s) && s@ == cmd
    } else {
        r == plain_action(command_of(cmd), v)
    }
}

pub open spec fn on_off_mark(b: bool, yes: Seq<char>, no: Seq<char>) -> Seq<char> {
    if b {
        yes
    } else {
        no
    }
}

/// The verification summary line.
pub open spec fn verify_line(v: VerifyResult) -> Seq<char> {
    "CPU: "@ + v.cpu_model@ + " | SMT: "@ + on_off_mark(v.smt_disabled, "off ✓"@, "on ✗ (disable in BIOS)"@)
        + " | Isolated: "@ + on_off_mark(v.cores_isolated, "yes ✓"@, "no ✗"@) + " | Swap: "@ + on_off_mark(
        v.swap_off,
        "off ✓"@,
        "on ✗"@,
    ) + " | Bare-metal: "@ + on_off_mark(v.running_bare_metal, "yes ✓"@, "no ✗"@)
}

/// The lines of `text`, each after `prefix`.
pub open spec fn prefixed_lines(text: Seq<char>, prefix: Seq<char>) -> Seq<Seq<char>> {
    Seq::new(lines_of(text).len(), |i: int| prefix + lines_of(text)[i])
}

/// `v` after the service calls back with `result`, printing `ok_lines` on
/// success and the error otherwise.
pub open spec fn result_printed(v: AppView, result: Result<(), String>, ok_lines: Seq<Seq<char>>) -> AppView {
    match result {
        Ok(_) => printed_all(v, ok_lines),
        Err(e) => printed(v, "Error: "@ + e@),
    }
}

/// The lines of `text`, each after `prefix`.
pub fn lines_with_prefix(text: &str, prefix: &str) -> (r: Vec<String>)
    ensures
        item_views(r@) == prefixed_lines(text@, prefix@),
{
    let v = chars_of(text);
    let ls = lines_in(&v);
    let mut r: Vec<String> = Vec::new();
    let mut i: usize = 0;
    proof {
        lemma_item_views_empty::<String>();
        assert(r@ =~= Seq::<String>::empty());
    }
    while i < ls.len()
        invariant
            i <= ls@.len(),
            v@ == text@,
            ls@.len() == lines_of(v@).len(),
            forall|j: int| 0 <= j < ls@.len() ==> #[trigger] ls@[j]@ == lines_of(v@)[j],
            item_views(r@) == prefixed_lines(text@, prefix@).take(i as int),
        decreases ls@.len() - i,
    {
        let mut s = String::new();
        s.append(prefix);
        let piece = string_of(&ls[i], 0, ls[i].len());
        assert(ls@[i as int]@.subrange(0, ls@[i as int]@.len() as int) =~= ls@[i as int]@);
        s.append(piece.as_str());
        let ghost before = r@;
        proof {
            lemma_item_views_push(before, s);
        }
        r.push(s);
        assert(item_views(r@) =~= prefixed_lines(text@, prefix@).take(i + 1));
        i = i + 1;
    }
    assert(item_views(r@) =~= prefixed_lines(text@, prefix@));
    r
}

/// The lines of `text`.
pub fn text_lines(text: &str) -> (r: Vec<String>)
    ensures
        item_views(r@) == lines_of(text@),
{
    let r = lines_with_prefix(text, "");
    proof {
        reveal_strlit("");
        assert(prefixed_lines(text@, ""@) =~= lines_of(text@));
    }
    r
}

impl TerminalState {
    fn print_all(&mut self, lines: Vec<String>)
        ensures
            final(self)@ == (TerminalView { output: old(self)@.output + item_views(lines@), ..old(self)@ }),
    {
        let mut out: Vec<String> = Vec::new();
        std::mem::swap(&mut out, &mut self.output);
        let ghost old_out = out@;
        let ghost lv = item_views(lines@);
        proof {
            lemma_item_views(lines@);
            lemma_item_views(old_out);
        }
        let mut i: usize = 0;
        while i < lines.len()
            invariant
                i <= lines@.len(),
                lv == item_views(lines@),
                lv.len() == lines@.len(),
                forall|j: int| 0 <= j < lines@.len() ==> #[trigger] lv[j] == lines@[j]@,
                item_views(out@) == item_views(old_out) + lv.take(i as int),
            decreases lines@.len() - i,
        {
            let ghost before = out@;
            let line = lines[i].clone();
            proof {
                lemma_item_views_push(before, line);
            }
            out.push(line);
            assert(item_views(out@) =~= item_views(old_out) + lv.take(i + 1));
            i = i + 1;
        }
        assert(lv.take(i as int) =~= lv);
        self.output = out;
    }

    /// Remembers `cmd` in the history.
    fn remember(&mut self, cmd: &String)
        ensures
            final(self)@ == (TerminalView { history: history_after(old(self)@.history, cmd@), ..old(self)@ }),
    {
        let ghost h0 = self.history@;
        proof {
            lemma_item_views(h0);
        }
        let n = self.history.len();
        if n > 0 && self.history[n - 1] == *cmd {
            return;
        }
        let c = cmd.clone();
        proof {
            lemma_item_views_push(h0, c);
        }
        self.history.push(c);
        if self.history.len() > CMD_HISTORY_LEN {
            let ghost h1 = self.history@;
            self.history.remove(0);
            proof {
                lemma_item_views(h1);
                lemma_item_views(self.history@);
                assert(item_views(self.history@) =~= item_views(h1).drop_first());
            }
        }
    }
}

impl App {
    /// Adds lines to the terminal output.
    pub fn print_all(&mut self, lines: Vec<String>)
        ensures
            final(self)@ == printed_all(old(self)@, item_views(lines@)),
    {
        self.terminal.print_all(lines);
    }

    /// Runs the typed line: it is taken from the input, remembered in the
    /// history (unless it repeats the last command) and echoed; a built-in
    /// command that needs no outside work is done, any other names that
    /// work in the result.
    pub fn exec_terminal_command(&mut self, now: &str) -> (r: TerminalAction)
        ensures
            final(self)@ == command_state(old(self)@, now@),
            command_action_ok(r, old(self)@),
    {
        let cmd = self.terminal.input.clone();
        self.terminal.input = String::new();
        self.terminal.history_idx = None;
        self.terminal.draft = String::new();
        if cmd.as_str().is_empty() {
            return TerminalAction::Done;
        }
        self.terminal.remember(&cmd);
        let mut echo = String::new();
        echo.append("$ ");
        echo.append(cmd.as_str());
        self.print(echo);
        let c = classify(cmd.as_str());
        match c {
            Command::Verify => TerminalAction::Verify,
            Command::LogStart => {
                if self.service.piggyback {
                    self.print("Daemon is already logging — use 'service status' to see log path.".to_owned());
                    TerminalAction::Done
                } else {
                    TerminalAction::StartLogging
                }
            },
            Command::LogStop => {
                if self.service.piggyback {
                    self.print("Logging is owned by the daemon — use 'service stop' to stop it.".to_owned());
                } else {
                    self.stop_logging(now);
                    self.print("Metric logging stopped.".to_owned());
                }
                TerminalAction::Done
            },
            Command::LogStatus => {
                if self.service.piggyback {
                    TerminalAction::DaemonLogStatus
                } else if self.log.logging_active {
                    TerminalAction::ActiveLogStatus
                } else {
                    self.print("Logging INACTIVE — type 'log start' to enable.".to_owned());
                    TerminalAction::Done
                }
            },
            Command::ServiceStart => TerminalAction::ServiceStart,
            Command::ServiceStop => TerminalAction::ServiceStop,
            Command::ServiceEnable => {
                self.print("Installing systemd unit + starting persistent daemon...".to_owned());
                TerminalAction::ServiceEnable
            },
            Command::ServiceDisable => {
                self.print("Stopping and disabling persistent service...".to_owned());
                TerminalAction::ServiceDisable
            },
            Command::ServiceStatus => TerminalAction::ServiceStatus,
            Command::Clear => {
                self.terminal.output = Vec::new();
                proof {
                    lemma_item_views_empty::<String>();
                    assert(self.terminal.output@ =~= Seq::<String>::empty());
                }
                TerminalAction::Done
            },
            Command::Help => {
                let lines = vec![
                    "Built-in commands:".to_owned(),
                    "  verify                   — re-run system verification".to_owned(),
                    "  log start/stop/status    — toggle/check NDJSON metric recording".to_owned(),
                    "  service start            — start background daemon (transient)".to_owned(),
                    "  service stop             — stop daemon (TUI still closes normally)".to_owned(),
                    "  service enable           — install systemd unit (persistent, reboot-safe)".to_owned(),
                    "  service disable          — remove systemd unit + stop daemon".to_owned(),
                    "  service status           — show daemon PID, mode, log path".to_owned(),
                    "  clear / quit             — clear output / exit TUI".to_owned(),
                    "When a service is active, closing the TUI does NOT stop monitoring.".to_owned(),
                    "Only 'service stop' or 'service disable' can stop the daemon.".to_owned(),
                ];
                proof {
                    lemma_item_views(lines@);
                    assert(item_views(lines@) =~= help_lines());
                }
                self.print_all(lines);
                TerminalAction::Done
            },
            Command::Quit => {
                self.should_quit = true;
                TerminalAction::Done
            },
            Command::Shell => TerminalAction::Shell(cmd),
        }
    }

    /// After `verify`: prints the summary of the current verification and
    /// its warnings, one per line.
    pub fn report_verify(&mut self)
        ensures
            final(self)@ == match old(self).verify {
                Some(v) => printed_all(printed(old(self)@, verify_line(v)), lines_of(v.warnings@)),
                None => old(self)@,
            },
    {
        match &self.verify {
            Some(v) => {
                let mut s = String::new();
                s.append("CPU: ");
                s.append(v.cpu_model.as_str());
                s.append(" | SMT: ");
                s.append(if v.smt_disabled { "off ✓" } else { "on ✗ (disable in BIOS)" });
                s.append(" | Isolated: ");
                s.append(if v.cores_isolated { "yes ✓" } else { "no ✗" });
                s.append(" | Swap: ");
                s.append(if v.swap_off { "off ✓" } else { "on ✗" });
                s.append(" | Bare-metal: ");
                s.append(if v.running_bare_metal { "yes ✓" } else { "no ✗" });
                assert(s@ =~= verify_line(*v));
                let lines = text_lines(v.warnings.as_str());
                self.print(s);
                self.print_all(lines);
            },
            None => {},
        }
    }

    /// After `log start`: names the metric log being written, if any.
    pub fn report_log_path(&mut self)
        ensures
            final(self)@ == match old(self)@.log.path {
                Some(p) => printed(old(self)@, "Logging to: "@ + p),
                None => old(self)@,
            },
    {
        match &self.log.path {
            Some(p) => {
                let mut s = String::new();
                s.append("Logging to: ");
                s.append(p.as_str());
                self.print(s);
            },
            None => {},
        }
    }

    /// After `log status` while piggybacking: `status` is the service status.
    pub fn report_daemon_logging(&mut self, status: &str)
        ensures
            final(self)@ == printed(old(self)@, "Logging owned by daemon — "@ + status@),
    {
        let mut s = String::new();
        s.append("Logging owned by daemon — ");
        s.append(status);
        self.print(s);
    }

    /// After `log status` while the TUI logs: `bytes` is what the log holds.
    pub fn report_logging_active(&mut self, bytes: u64)
        ensures
            final(self)@ == match old(self)@.log.path {
                Some(p) => printed(
                    old(self)@,
                    "Logging ACTIVE → "@ + p + "  ("@ + size_text(bytes as nat) + ")"@,
                ),
                None => old(self)@,
            },
    {
        match &self.log.path {
            Some(p) => {
                let mut s = String::new();
                s.append("Logging ACTIVE → ");
                s.append(p.as_str());
                s.append("  (");
                let size = fmt_size(bytes);
                s.append(size.as_str());
                s.append(")");
                self.print(s);
            },
            None => {},
        }
    }

    /// After `service start`: `pid` is the running daemon's, if one runs.
    /// Returns whether to start the daemon, then `service_start_done`.
    pub fn service_start_check(&mut self, pid: Option<u32>) -> (proceed: bool)
        ensures
            proceed == pid.is_none(),
            final(self)@ == match pid {
                Some(p) => printed(old(self)@, "Daemon already running (pid "@ + nat_text(p as nat) + ")."@),
                None => printed(old(self)@, "Starting transient daemon..."@),
            },
    {
        match pid {
            Some(p) => {
                let mut s = String::new();
                s.append("Daemon already running (pid ");
                push_u64(&mut s, p as u64);
                s.append(").");
                self.print(s);
                false
            },
            None => {
                self.print("Starting transient daemon...".to_owned());
                true
            },
        }
    }

    /// The daemon was started, or not. Returns whether to refresh
    /// verification now, then `after_daemon_up`.
    pub fn service_start_done(&mut self, result: &Result<(), String>) -> (refresh: bool)
        ensures
            refresh == result is Ok,
            final(self)@ == result_printed(old(self)@, *result, seq!["Daemon started."@]),
    {
        let lines = vec!["Daemon started.".to_owned()];
        proof {
            lemma_item_views(lines@);
            assert(item_views(lines@) =~= seq!["Daemon started."@]);
        }
        self.service_result(result, lines)
    }

    /// After the daemon came up and verification was refreshed: the TUI
    /// stops its own metric log when it now piggybacks on the daemon's.
    pub fn after_daemon_up(&mut self, now: &str)
        ensures
            final(self)@ == if old(self).service.piggyback && old(self).log.logging_active {
                logging_stopped(old(self)@, now@)
            } else {
                old(self)@
            },
    {
        if self.service.piggyback && self.log.logging_active {
            self.stop_logging(now);
        }
    }

    /// After `service stop`: whether a daemon runs and whether the systemd
    /// unit is installed. Returns whether to stop it, then `service_stop_done`.
    pub fn service_stop_check(&mut self, running: bool, unit_installed: bool) -> (proceed: bool)
        ensures
            proceed == running,
            final(self)@ == if !running {
                printed(old(self)@, "Daemon is not running."@)
            } else if unit_installed {
                printed_all(
                    old(self)@,
                    seq![
                        "Warning: systemd unit is installed — daemon will restart on next boot."@,
                        "Use 'service disable' to fully remove the persistent service."@,
                        "Stopping daemon..."@,
                    ],
                )
            } else {
                printed(old(self)@, "Stopping daemon..."@)
            },
    {
        if !running {
            self.print("Daemon is not running.".to_owned());
            return false;
        }
        if unit_installed {
            self.print("Warning: systemd unit is installed — daemon will restart on next boot.".to_owned());
            self.print("Use 'service disable' to fully remove the persistent service.".to_owned());
            assert(self@.terminal.output =~= old(self)@.terminal.output + seq![
                "Warning: systemd unit is installed — daemon will restart on next boot."@,
                "Use 'service disable' to fully remove the persistent service."@,
            ]);
        }
        self.print("Stopping daemon...".to_owned());
        assert(unit_installed ==> self@.terminal.output =~= old(self)@.terminal.output + seq![
            "Warning: systemd unit is installed — daemon will restart on next boot."@,
            "Use 'service disable' to fully remove the persistent service."@,
            "Stopping daemon..."@,
        ]);
        true
    }

    /// The daemon was stopped, or not. Returns whether to refresh
    /// verification and start the TUI's own metric log now.
    pub fn service_stop_done(&mut self, result: &Result<(), String>) -> (refresh: bool)
        ensures
            refresh == result is Ok,
            final(self)@ == match result {
                Ok(_) => service_cleared(printed(old(self)@, "Daemon stopped."@)),
                Err(e) => printed(old(self)@, "Error: "@ + e@),
            },
    {
        let lines = vec!["Daemon stopped.".to_owned()];
        proof {
            lemma_item_views(lines@);
            assert(item_views(lines@) =~= seq!["Daemon stopped."@]);
        }
        let ok = self.service_result(result, lines);
        assert(old(self)@.terminal.output + seq!["Daemon stopped."@] =~= old(self)@.terminal.output.push("Daemon stopped."@));
        if ok {
            self.service.active = false;
            self.service.piggyback = false;
            self.service.mode = None;
        }
        ok
    }

    /// The persistent service was installed and started, or not. Returns
    /// whether to refresh verification now, then `after_daemon_up`.
    pub fn service_enable_done(&mut self, result: &Result<(), String>) -> (refresh: bool)
        ensures
            refresh == result is Ok,
            final(self)@ == result_printed(
                old(self)@,
                *result,
                seq![
                    "Service enabled and started. Will restart on each boot."@,
                    "Runtime setup (veth/IRQ/swap) will be re-applied automatically after every reboot."@,
                ],
            ),
    {
        let lines = vec![
            "Service enabled and started. Will restart on each boot.".to_owned(),
            "Runtime setup (veth/IRQ/swap) will be re-applied automatically after every reboot.".to_owned(),
        ];
        proof {
            lemma_item_views(lines@);
            assert(item_views(lines@) =~= seq![
                "Service enabled and started. Will restart on each boot."@,
                "Runtime setup (veth/IRQ/swap) will be re-applied automatically after every reboot."@,
            ]);
        }
        self.service_result(result, lines)
    }

    /// The persistent service was removed, or not. Returns whether to
    /// refresh verification and start the TUI's own metric log now.
    pub fn service_disable_done(&mut self, result: &Result<(), String>) -> (refresh: bool)
        ensures
            refresh == result is Ok,
            final(self)@ == match result {
                Ok(_) => service_cleared(printed(old(self)@, "Service disabled and unit removed."@)),
                Err(e) => printed(old(self)@, "Error: "@ + e@),
            },
    {
        let lines = vec!["Service disabled and unit removed.".to_owned()];
        proof {
            lemma_item_views(lines@);
            assert(item_views(lines@) =~= seq!["Service disabled and unit removed."@]);
        }
        let ok = self.service_result(result, lines);
        assert(old(self)@.terminal.output + seq!["Service disabled and unit removed."@] =~= old(self)@.terminal.output.push("Service disabled and unit removed."@));
        if ok {
            self.service.active = false;
            self.service.piggyback = false;
            self.service.mode = None;
        }
        ok
    }

    fn service_result(&mut self, result: &Result<(), String>, ok_lines: Vec<String>) -> (ok: bool)
        ensures
            ok == result is Ok,
            final(self)@ == result_printed(old(self)@, *result, item_views(ok_lines@)),
    {
        match result {
            Ok(()) => {
                self.print_all(ok_lines);
                true
            },
            Err(e) => {
                let mut s = String::new();
                s.append("Error: ");
                s.append(e.as_str());
                self.print(s);
                false
            },
        }
    }

    /// After `service status`: prints the status, one line per line.
    pub fn report_service_status(&mut self, status: &str)
        ensures
            final(self)@ == printed_all(old(self)@, lines_of(status@)),
    {
        let lines = text_lines(status);
        self.print_all(lines);
    }

    /// A shell ran the line: its output lines, then its error lines marked.
    pub fn shell_output(&mut self, stdout: &str, stderr: &str)
        ensures
            final(self)@ == printed_all(
                printed_all(old(self)@, lines_of(stdout@)),
                prefixed_lines(stderr@, "ERR: "@),
            ),
    {
        let out = text_lines(stdout);
        let err = lines_with_prefix(stderr, "ERR: ");
        self.print_all(out);
        self.print_all(err);
    }

    /// The shell could not be run.
    pub fn shell_failed(&mut self, err: &str)
        ensures
            final(self)@ == printed(old(self)@, "exec error: "@ + err@),
    {
        let mut s = String::new();
        s.append("exec error: ");
        s.append(err);
        self.print(s);
    }

    /// Up in the Terminal tab: the previous command of the history. On the
    /// first step back, what was typed is kept to come back to.
    pub fn history_prev(&mut self)
        requires
            old(self).terminal.history_idx matches Some(i) ==> i <= old(self).terminal.history@.len(),
        ensures
            final(self)@ == (AppView { terminal: browsed_back(old(self)@.terminal), ..old(self)@ }),
    {
        proof {
            lemma_item_views(self.terminal.history@);
        }
        let n = self.terminal.history.len();
        if n == 0 {
            return;
        }
        let idx = match self.terminal.history_idx {
            None => {
                self.terminal.draft = self.terminal.input.clone();
                n - 1
            },
            Some(i) => if i == 0 {
                0
            } else {
                i - 1
            },
        };
        self.terminal.history_idx = Some(idx);
        self.terminal.input = self.terminal.history[idx].clone();
    }

    /// Down in the Terminal tab: the next command of the history, or back
    /// to what was typed after the newest.
    pub fn history_next(&mut self)
        ensures
            final(self)@ == (AppView { terminal: browsed_forward(old(self)@.terminal), ..old(self)@ }),
    {
        proof {
            lemma_item_views(self.terminal.history@);
        }
        match self.terminal.history_idx {
            None => {},
            Some(i) => {
                if i >= self.terminal.history.len() || i + 1 >= self.terminal.history.len() {
                    self.terminal.history_idx = None;
                    self.terminal.input = self.terminal.draft.clone();
                } else {
                    self.terminal.history_idx = Some(i + 1);
                    self.terminal.input = self.terminal.history[i + 1].clone();
                }
            },
        }
    }
}

/// The terminal after stepping back in the history.
pub open spec fn browsed_back(t: TerminalView) -> TerminalView {
    if t.history.len() == 0 {
        t
    } else {
        match t.history_idx {
            None => TerminalView {
                history_idx: Some((t.history.len() - 1) as usize),
                input: t.history[t.history.len() - 1],
                draft: t.input,
                ..t
            },
            Some(i) => {
                let j: int = if i == 0 {
                    0
                } else {
                    i - 1
                };
                TerminalView { history_idx: Some(j as usize), input: t.history[j], ..t }
            },
        }
    }
}

/// The terminal after stepping forward in the history.
pub open spec fn browsed_forward(t: TerminalView) -> TerminalView {
    match t.history_idx {
        None => t,
        Some(i) => if i + 1 >= t.history.len() {
            TerminalView { history_idx: None, input: t.draft, ..t }
        } else {
            TerminalView { history_idx: Some((i + 1) as usize), input: t.history[i + 1], ..t }
        },
    }
}

/// The history keeps at most `CMD_HISTORY_LEN` commands, ends with the
/// command just run, and never holds the same command twice in a row.
pub proof fn lemma_history_after(h: Seq<Seq<char>>, cmd: Seq<char>)
    requires
        h.len() <= CMD_HISTORY_LEN,
        forall|i: int| 0 <= i < h.len() - 1 ==> #[trigger] h[i] != h[i + 1],
    ensures
        history_after(h, cmd).len() <= CMD_HISTORY_LEN,
        history_after(h, cmd).len() > 0,
        history_after(h, cmd).last() == cmd,
        forall|i: int|
            0 <= i < history_after(h, cmd).len() - 1 ==> #[trigger] history_after(h, cmd)[i]
                != history_after(h, cmd)[i + 1],
{
    let r = history_after(h, cmd);
    if h.len() > 0 && h.last() == cmd {
    } else if h.len() + 1 > CMD_HISTORY_LEN {
        let p = h.push(cmd);
        assert forall|i: int| 0 <= i < r.len() - 1 implies #[trigger] r[i] != r[i + 1] by {
            assert(r[i] == p[i + 1]);
            assert(r[i + 1] == p[i + 2]);
            if i + 2 < h.len() {
                assert(h[i + 1] != h[i + 2]);
            }
        }
    } else {
        assert forall|i: int| 0 <= i < r.len() - 1 implies #[trigger] r[i] != r[i + 1] by {
            if i + 1 < h.len() {
                assert(h[i] != h[i + 1]);
            }
        }
    }
}

/// Stepping back into the history and forward again gives back what was
/// typed.
pub proof fn lemma_browse_back_forward(t: TerminalView)
    requires
        t.history_idx is None,
        0 < t.history.len() <= usize::MAX,
    ensures
        browsed_forward(browsed_back(t)).input == t.input,
        browsed_forward(browsed_back(t)).history_idx is None,
        browsed_forward(browsed_back(t)).history == t.history,
{
}

/// The terminal after `n` steps back in the history.
pub open spec fn browsed_back_n(t: TerminalView, n: nat) -> TerminalView
    decreases n,
{
    if n == 0 {
        t
    } else {
        browsed_back_n(browsed_back(t), (n - 1) as nat)
    }
}

/// The terminal after `n` steps forward in the history.
pub open spec fn browsed_forward_n(t: TerminalView, n: nat) -> TerminalView
    decreases n,
{
    if n == 0 {
        t
    } else {
        browsed_forward_n(browsed_forward(t), (n - 1) as nat)
    }
}

/// Stepping back from a history entry stops at the oldest one.
proof fn lemma_back_steps(t: TerminalView, i: usize, n: nat)
    requires
        t.history_idx == Some(i),
        i < t.history.len(),
        n >= 1,
    ensures
        ({
            let j: int = if i >= n {
                i - n
            } else {
                0
            };
            browsed_back_n(t, n) == (TerminalView {
                history_idx: Some(j as usize),
                input: t.history[j],
                ..t
            })
        }),
    decreases n,
{
    let b = browsed_back(t);
    let bi: usize = if i == 0 {
        0
    } else {
        (i - 1) as usize
    };
    assert(b.history_idx == Some(bi));
    if n > 1 {
        lemma_back_steps(b, bi, (n - 1) as nat);
    }
}

/// With nothing being browsed, stepping forward changes nothing.
proof fn lemma_forward_idle(t: TerminalView, n: nat)
    requires
        t.history_idx is None,
    ensures
        browsed_forward_n(t, n) == t,
    decreases n,
{
    if n > 0 {
        lemma_forward_idle(browsed_forward(t), (n - 1) as nat);
    }
}

/// Stepping forward from entry `i` at least `len - i` times ends the
/// browsing and brings back the draft.
proof fn lemma_forward_steps(t: TerminalView, i: usize, n: nat)
    requires
        t.history_idx == Some(i),
        i < t.history.len() <= usize::MAX,
        n >= t.history.len() - i,
    ensures
        browsed_forward_n(t, n) == (TerminalView { history_idx: None, input: t.draft, ..t }),
    decreases n,
{
    let f = browsed_forward(t);
    if i + 1 >= t.history.len() {
        lemma_forward_idle(f, (n - 1) as nat);
    } else {
        assert(f.history_idx == Some((i + 1) as usize));
        lemma_forward_steps(f, (i + 1) as usize, (n - 1) as nat);
    }
}

/// Stepping back `k` times into the history and then forward `k` times or
/// more gives back the typed text and ends the browsing; the history is
/// unchanged, and steps forward beyond the `k`-th change nothing.
pub proof fn lemma_browse_steps_back_forward(t: TerminalView, k: nat, extra: nat)
    requires
        t.history_idx is None,
        0 < t.history.len() <= usize::MAX,
        k >= 1,
    ensures
        browsed_forward_n(browsed_back_n(t, k), k + extra) == (TerminalView { draft: t.input, ..t }),
{
    let len = t.history.len();
    let b = browsed_back(t);
    let last = (len - 1) as usize;
    assert(b.history_idx == Some(last));
    let j: int = if last >= k - 1 {
        last - (k - 1)
    } else {
        0
    };
    if k > 1 {
        lemma_back_steps(b, last, (k - 1) as nat);
    }
    let bk = browsed_back_n(t, k);
    assert(bk == (TerminalView { history_idx: Some(j as usize), input: t.history[j], ..b }));
    lemma_forward_steps(bk, j as usize, k + extra);
}

/// Each built-in command has its own words, and only those words select
/// it; any other line goes to the shell.
pub proof fn lemma_command_words(c: Seq<char>)
    ensures
        command_of(c) is Verify <==> (c == "ubenchmon verify"@ || c == "verify"@),
        command_of(c) is LogStart <==> c == "log start"@,
        command_of(c) is LogStop <==> c == "log stop"@,
        command_of(c) is LogStatus <==> c == "log status"@,
        command_of(c) is ServiceStart <==> c == "service start"@,
        command_of(c) is ServiceStop <==> c == "service stop"@,
        command_of(c) is ServiceEnable <==> c == "service enable"@,
        command_of(c) is ServiceDisable <==> c == "service disable"@,
        command_of(c) is ServiceStatus <==> c == "service status"@,
        command_of(c) is Clear <==> c == "clear"@,
        command_of(c) is Help <==> c == "help"@,
        command_of(c) is Quit <==> (c == "quit"@ || c == "exit"@),
{
    reveal_strlit("ubenchmon verify");
    reveal_strlit("verify");
    reveal_strlit("log start");
    reveal_strlit("log stop");
    reveal_strlit("log status");
    reveal_strlit("service start");
    reveal_strlit("service stop");
    reveal_strlit("service enable");
    reveal_strlit("service disable");
    reveal_strlit("service status");
    reveal_strlit("clear");
    reveal_strlit("help");
    reveal_strlit("quit");
    reveal_strlit("exit");
    let w = seq![
        "ubenchmon verify"@, "verify"@, "log start"@, "log stop"@, "log status"@, "service start"@,
        "service stop"@, "service enable"@, "service disable"@, "service status"@, "clear"@, "help"@,
        "quit"@, "exit"@,
    ];
    // Built-in words are pairwise distinct: by length, or by a character.
    assert forall|i: int, j: int| 0 <= i < j < w.len() implies w[i] != w[j] by {
        if w[i].len() == w[j].len() {
            assert(w[i][0] != w[j][0] || w[i][8] != w[j][8]);
        }
    }
}

/// What running a typed line leaves to the caller: each service command
/// its own service action, `verify` a verification, and any line that is
/// no built-in a shell run of that very line. Only `service disable`
/// removes the persistent service, and only `service stop` stops the
/// daemon alone.
pub proof fn lemma_command_actions(r: TerminalAction, v: AppView)
    requires
        command_action_ok(r, v),
    ensures
        v.terminal.input == "service start"@ ==> r == TerminalAction::ServiceStart,
        v.terminal.input == "service stop"@ ==> r == TerminalAction::ServiceStop,
        v.terminal.input == "service enable"@ ==> r == TerminalAction::ServiceEnable,
        v.terminal.input == "service disable"@ ==> r == TerminalAction::ServiceDisable,
        v.terminal.input == "service status"@ ==> r == TerminalAction::ServiceStatus,
        (v.terminal.input == "verify"@ || v.terminal.input == "ubenchmon verify"@) ==> r == TerminalAction::Verify,
        r is ServiceDisable ==> v.terminal.input == "service disable"@,
        r is ServiceStop ==> v.terminal.input == "service stop"@,
        r is ServiceEnable ==> v.terminal.input == "service enable"@,
        r is ServiceStart ==> v.terminal.input == "service start"@,
        r matches TerminalAction::Shell(s) ==> s@ == v.terminal.input && v.terminal.input.len() > 0,
{
    reveal_strlit("service start");
    reveal_strlit("service stop");
    reveal_strlit("service enable");
    reveal_strlit("service disable");
    reveal_strlit("service status");
    reveal_strlit("verify");
    reveal_strlit("ubenchmon verify");
    lemma_command_words(v.terminal.input);
}

} // verus!
