//! The TUI's session decisions: verification refreshes, the metric log,
//! the modal dialogs and the teardown sequence.
//!
//! Each step takes what the outside world answered (the verification
//! result, whether a daemon runs, what disabling the service gave, what a
//! teardown returned) and says in its result what the caller does next.
use vstd::prelude::*;
use crate::app::{
    fresh_monitor, histories_paired, logged, event_logged, App, AppView, LogLevel, LogStateView,
    MonitorView, PickerView, Modals, ServiceState,
};
use crate::config::{bool_text, SetupConfig};
use crate::service::{mode_label, ServiceMode};
use crate::snapshot_store::ConfigSnapshot;
use crate::system::{SetupResult, Status, VerifyResult};
use crate::text::{int_text, nat_text, push_i64, push_u64};

verus! {

/// What the caller found out about the background service while refreshing.
#[derive(Debug, Clone, Copy, PartialEq, Eq, Structural)]
pub enum ServiceProbe {
    /// A daemon is running; the TUI reads its snapshots.
    Running { pid: u32, mode: Option<ServiceMode> },
    /// No daemon; whether the TUI's own monitor could be started.
    Absent { monitor_ok: bool },
}

/// How a status is written in messages: its name, with the code of an
/// unknown one.
pub open spec fn status_name(s: Status) -> Seq<char> {
    match s {
        Status::Success => "Ok"@,
        Status::ErrPerm => "ErrPerm"@,
        Status::ErrReboot => "ErrReboot"@,
        Status::ErrPartial => "ErrPartial"@,
        Status::ErrIo => "ErrIo"@,
        Status::ErrInval => "ErrInval"@,
        Status::ErrNotSup => "ErrNotSup"@,
        Status::ErrAlready => "ErrAlready"@,
        Status::ErrBusy => "ErrBusy"@,
        Status::Unknown(v) => "Unknown("@ + int_text(v as int) + ")"@,
    }
}

/// Appends the name of a status.
pub fn push_status_name(s: &mut String, st: Status)
    ensures
        final(s)@ == old(s)@ + status_name(st),
{
    match st {
        Status::Success => s.append("Ok"),
        Status::ErrPerm => s.append("ErrPerm"),
        Status::ErrReboot => s.append("ErrReboot"),
        Status::ErrPartial => s.append("ErrPartial"),
        Status::ErrIo => s.append("ErrIo"),
        Status::ErrInval => s.append("ErrInval"),
        Status::ErrNotSup => s.append("ErrNotSup"),
        Status::ErrAlready => s.append("ErrAlready"),
        Status::ErrBusy => s.append("ErrBusy"),
        Status::Unknown(v) => {
            s.append("Unknown(");
            push_i64(s, v as i64);
            s.append(")");
            assert(s@ =~= old(s)@ + status_name(st));
        },
    }
}

pub open spec fn daemon_running_msg(pid: u32, mode: Option<ServiceMode>) -> Seq<char> {
    "Daemon running (pid="@ + nat_text(pid as nat) + ") ["@ + match mode {
        Some(m) => mode_label(m),
        None => "unknown mode"@,
    } + "] — TUI is piggybacking; close TUI freely, daemon keeps logging"@
}

/// `v` with verification refreshed: the new result, the latest snapshot
/// and every history dropped, and the service state as probed.
pub open spec fn refreshed(v: AppView, now: Seq<char>, verify: VerifyResult, probe: ServiceProbe) -> AppView {
    let v2 = logged(AppView { verify: Some(verify), ..v }, now, LogLevel::Info, "System verification refreshed"@);
    let v3 = AppView {
        monitor: fresh_monitor(v.monitor.section, v.monitor.cpu_scroll, v.monitor.net_scroll, v.monitor.disk_scroll),
        ..v2
    };
    match probe {
        ServiceProbe::Running { pid, mode } => logged(
            AppView { service: ServiceState { active: true, piggyback: true, mode }, ..v3 },
            now,
            LogLevel::Success,
            daemon_running_msg(pid, mode),
        ),
        ServiceProbe::Absent { monitor_ok } => {
            let v4 = AppView { service: ServiceState { active: false, piggyback: false, mode: None }, ..v3 };
            if monitor_ok {
                logged(
                    AppView { monitor: MonitorView { own_monitor: true, ..v4.monitor }, ..v4 },
                    now,
                    LogLevel::Success,
                    "Monitor initialized (CPU+MEM+NET+DISK)"@,
                )
            } else {
                logged(v4, now, LogLevel::Warn, "Monitor init failed — try running as root for perf counters"@)
            }
        },
    }
}

/// `v` after the TUI's own metric log stops.
pub open spec fn logging_stopped(v: AppView, now: Seq<char>) -> AppView {
    logged(
        AppView { log: LogStateView { logging_active: false, path: None, ..v.log }, ..v },
        now,
        LogLevel::Info,
        "Metric logging stopped"@,
    )
}

/// `v` after the outcome of opening the metric log is recorded: its path,
/// or `None` when it could not be opened. While a log is written nothing
/// changes.
pub open spec fn logging_opened(v: AppView, now: Seq<char>, opened: Option<Seq<char>>) -> AppView {
    if v.log.logging_active {
        v
    } else {
        match opened {
            Some(p) => logged(
                AppView { log: LogStateView { logging_active: true, path: Some(p), ..v.log }, ..v },
                now,
                LogLevel::Success,
                "Metric log: "@ + p,
            ),
            None => logged(v, now, LogLevel::Error, "Could not open metric log file in /var/log/ubenchmon"@),
        }
    }
}

/// `v` with the reboot modal shown.
pub open spec fn reboot_shown(v: AppView, refresh_on_dismiss: bool) -> AppView {
    AppView { modals: Modals { reboot: true, reboot_refresh_on_dismiss: refresh_on_dismiss, ..v.modals }, ..v }
}

/// The log after a teardown begins restoring a configuration, noting the
/// GRUB clean-up when the configuration isolates no cores.
pub open spec fn restore_begun(v: AppView, now: Seq<char>, cores_empty: bool) -> AppView {
    let v1 = event_logged(
        logged(v, now, LogLevel::Info, "Re-applying pre-apply state..."@),
        "teardown"@,
        "re-applying preconfig"@,
    );
    if cores_empty {
        logged(v1, now, LogLevel::Info, "GRUB: removing ubenchmon kernel params..."@)
    } else {
        v1
    }
}

/// What a teardown does once its cleanup has run.
#[derive(Debug)]
pub enum TeardownStep {
    /// Apply `config` again to restore it, after removing this tool's
    /// kernel parameters from GRUB when `clean_grub`; then hand the result
    /// to `teardown_restore_done`.
    Restore { config: SetupConfig, clean_grub: bool },
    /// Nothing is left to restore: refresh verification.
    RefreshVerify,
}

/// The state after the cleanup, for the chosen snapshot (if any).
pub open spec fn after_cleanup(v: AppView, now: Seq<char>, snap: Option<ConfigSnapshot>) -> AppView {
    match snap {
        Some(s) => match s.config {
            Some(c) => restore_begun(v, now, c@.isolated_cores.len() == 0),
            None => v,
        },
        None => logged(v, now, LogLevel::Warn, "No preconfig to restore — only cleanup was performed"@),
    }
}

/// The step after the cleanup, for the chosen snapshot (if any).
pub open spec fn step_after_cleanup(r: TeardownStep, snap: Option<ConfigSnapshot>) -> bool {
    match snap {
        Some(s) => match s.config {
            Some(c) => r matches TeardownStep::Restore { config, clean_grub } && config@ == c@
                && clean_grub == (c@.isolated_cores.len() == 0),
            None => r is RefreshVerify,
        },
        None => r is RefreshVerify,
    }
}

/// The outcome of a teardown's restore step, and what follows it.
pub open spec fn restore_logged(v: AppView, now: Seq<char>, result: SetupResult, cores_empty: bool) -> AppView {
    let v1 = event_logged(
        v,
        "teardown"@,
        "preconfig restore status="@ + status_name(result.status) + " reboot="@ + bool_text(result.reboot_required),
    );
    let v2 = match result.status {
        Status::Success => logged(v1, now, LogLevel::Success, "Pre-apply state restored"@),
        Status::ErrPartial => logged(v1, now, LogLevel::Success, "Pre-apply state restored"@),
        Status::ErrPerm => logged(v1, now, LogLevel::Error, "Restore failed: need root"@),
        other => logged(v1, now, LogLevel::Error, "Restore finished with: "@ + status_name(other)),
    };
    if result.reboot_required || cores_empty {
        reboot_shown(
            logged(v2, now, LogLevel::Warn, "GRUB was modified — reboot required to fully restore kernel params"@),
            true,
        )
    } else {
        v2
    }
}

/// `v` with the service marked as gone.
pub open spec fn service_cleared(v: AppView) -> AppView {
    AppView { service: ServiceState { active: false, piggyback: false, mode: None }, ..v }
}

impl App {
    /// Records the outcome of opening the metric log: its path, or `None`
    /// when it could not be opened. The caller opens one only while none is
    /// written; while one is, nothing changes.
    pub fn logging_started(&mut self, now: &str, opened: Option<String>)
        ensures
            final(self)@ == logging_opened(
                old(self)@,
                now@,
                match opened {
                    Some(p) => Some(p@),
                    None => None,
                },
            ),
    {
        if self.log.logging_active {
            return;
        }
        match opened {
            Some(p) => {
                let mut msg = String::new();
                msg.append("Metric log: ");
                msg.append(p.as_str());
                self.log.path = Some(p);
                self.log.logging_active = true;
                self.log(now, LogLevel::Success, msg.as_str());
            },
            None => {
                self.log(now, LogLevel::Error, "Could not open metric log file in /var/log/ubenchmon");
            },
        }
    }

    /// Stops the TUI's own metric log.
    pub fn stop_logging(&mut self, now: &str)
        ensures
            final(self)@ == logging_stopped(old(self)@, now@),
    {
        self.log.path = None;
        self.log.logging_active = false;
        self.log(now, LogLevel::Info, "Metric logging stopped");
    }

    /// Takes a new verification result and the service probe: drops the
    /// latest snapshot and the histories, then either piggybacks on the
    /// running daemon or records whether the TUI's own monitor started.
    pub fn refresh_verify(&mut self, now: &str, verify: VerifyResult, probe: ServiceProbe)
        ensures
            final(self)@ == refreshed(old(self)@, now@, verify, probe),
            histories_paired(final(self)@.monitor),
    {
        self.verify = Some(verify);
        self.log(now, LogLevel::Info, "System verification refreshed");
        self.monitor.reset();
        match probe {
            ServiceProbe::Running { pid, mode } => {
                self.service = ServiceState { active: true, piggyback: true, mode };
                let mut msg = String::new();
                msg.append("Daemon running (pid=");
                push_u64(&mut msg, pid as u64);
                msg.append(") [");
                match mode {
                    Some(m) => msg.append(m.label()),
                    None => msg.append("unknown mode"),
                }
                msg.append("] — TUI is piggybacking; close TUI freely, daemon keeps logging");
                assert(msg@ =~= daemon_running_msg(pid, mode));
                self.log(now, LogLevel::Success, msg.as_str());
            },
            ServiceProbe::Absent { monitor_ok } => {
                self.service = ServiceState { active: false, piggyback: false, mode: None };
                if monitor_ok {
                    self.monitor.own_monitor = true;
                    self.log(now, LogLevel::Success, "Monitor initialized (CPU+MEM+NET+DISK)");
                } else {
                    self.log(now, LogLevel::Warn, "Monitor init failed — try running as root for perf counters");
                }
            },
        }
    }

    pub fn dismiss_root_warning(&mut self)
        ensures
            final(self)@ == (AppView { modals: Modals { root_warning: false, ..old(self)@.modals }, ..old(self)@ }),
    {
        self.modals.root_warning = false;
    }

    pub fn show_reboot_modal(&mut self, refresh_on_dismiss: bool)
        ensures
            final(self)@ == reboot_shown(old(self)@, refresh_on_dismiss),
    {
        self.modals.reboot = true;
        self.modals.reboot_refresh_on_dismiss = refresh_on_dismiss;
    }

    /// Closes the reboot modal; returns whether verification is to be
    /// refreshed now, as the modal asked when it was shown.
    pub fn dismiss_reboot_modal(&mut self) -> (refresh: bool)
        ensures
            refresh == old(self).modals.reboot_refresh_on_dismiss,
            final(self)@ == (AppView {
                modals: Modals { reboot: false, reboot_refresh_on_dismiss: false, ..old(self)@.modals },
                ..old(self)@
            }),
    {
        self.modals.reboot = false;
        if self.modals.reboot_refresh_on_dismiss {
            self.modals.reboot_refresh_on_dismiss = false;
            true
        } else {
            false
        }
    }

    /// The user asked to reboot: the modal closes, the event goes to the
    /// metric log and the TUI quits. Starting `reboot` is the caller's part.
    pub fn reboot_now(&mut self)
        ensures
            final(self)@ == (AppView {
                should_quit: true,
                ..event_logged(
                    AppView {
                        modals: Modals { reboot: false, reboot_refresh_on_dismiss: false, ..old(self)@.modals },
                        ..old(self)@
                    },
                    "reboot"@,
                    "user initiated reboot from modal"@,
                )
            }),
    {
        self.modals.reboot = false;
        self.modals.reboot_refresh_on_dismiss = false;
        self.log_event("reboot", "user initiated reboot from modal");
        self.should_quit = true;
    }

    /// Teardown was asked for; `persistent` tells whether the persistent
    /// service is installed. Returns whether the snapshot picker is to be
    /// opened now; otherwise the user is asked first.
    pub fn request_teardown(&mut self, now: &str, persistent: bool) -> (open_picker: bool)
        ensures
            open_picker == !persistent,
            final(self)@ == if persistent {
                logged(
                    AppView { modals: Modals { teardown_service_warn: true, ..old(self)@.modals }, ..old(self)@ },
                    now@,
                    LogLevel::Warn,
                    "Persistent service is enabled — teardown blocked pending confirmation"@,
                )
            } else {
                old(self)@
            },
    {
        if persistent {
            self.modals.teardown_service_warn = true;
            self.log(now, LogLevel::Warn, "Persistent service is enabled — teardown blocked pending confirmation");
            false
        } else {
            true
        }
    }

    /// The user chose to disable the persistent service before teardown;
    /// `result` is what disabling it gave. Returns whether the snapshot
    /// picker is to be opened.
    pub fn teardown_warn_disable_and_continue(&mut self, now: &str, result: &Result<(), String>) -> (open_picker: bool)
        ensures
            open_picker == result is Ok,
            final(self)@ == {
                let v1 = logged(
                    AppView { modals: Modals { teardown_service_warn: false, ..old(self)@.modals }, ..old(self)@ },
                    now@,
                    LogLevel::Warn,
                    "Disabling persistent service before teardown..."@,
                );
                match result {
                    Ok(_) => logged(
                        service_cleared(v1),
                        now@,
                        LogLevel::Success,
                        "Persistent service disabled and systemd unit removed"@,
                    ),
                    Err(e) => logged(
                        logged(v1, now@, LogLevel::Error, "Failed to disable service: "@ + e@),
                        now@,
                        LogLevel::Error,
                        "Teardown aborted — resolve the service before retrying"@,
                    ),
                }
            },
    {
        self.modals.teardown_service_warn = false;
        self.log(now, LogLevel::Warn, "Disabling persistent service before teardown...");
        match result {
            Ok(()) => {
                self.service = ServiceState { active: false, piggyback: false, mode: None };
                self.log(now, LogLevel::Success, "Persistent service disabled and systemd unit removed");
                true
            },
            Err(e) => {
                let mut msg = String::new();
                msg.append("Failed to disable service: ");
                msg.append(e.as_str());
                self.log(now, LogLevel::Error, msg.as_str());
                self.log(now, LogLevel::Error, "Teardown aborted — resolve the service before retrying");
                false
            },
        }
    }

    pub fn teardown_warn_cancel(&mut self, now: &str)
        ensures
            final(self)@ == logged(
                AppView { modals: Modals { teardown_service_warn: false, ..old(self)@.modals }, ..old(self)@ },
                now@,
                LogLevel::Info,
                "Teardown cancelled — persistent service left installed"@,
            ),
    {
        self.modals.teardown_service_warn = false;
        self.log(now, LogLevel::Info, "Teardown cancelled — persistent service left installed");
    }

    /// Opens the picker over the saved snapshots, newest first as listed;
    /// with none saved it stays closed and says so.
    pub fn open_teardown_picker(&mut self, now: &str, snapshots: Vec<ConfigSnapshot>)
        ensures
            final(self)@ == {
                let v1 = AppView {
                    teardown: PickerView { snapshots: snapshots@, idx: 0, preview: false, ..old(self)@.teardown },
                    ..old(self)@
                };
                if snapshots@.len() == 0 {
                    logged(
                        v1,
                        now@,
                        LogLevel::Warn,
                        "No saved config snapshots found — run Apply first to create a restore point"@,
                    )
                } else {
                    AppView { teardown: PickerView { active: true, ..v1.teardown }, ..v1 }
                }
            },
    {
        let empty = snapshots.len() == 0;
        self.teardown.snapshots = snapshots;
        self.teardown.idx = 0;
        self.teardown.preview = false;
        if empty {
            self.log(now, LogLevel::Warn, "No saved config snapshots found — run Apply first to create a restore point");
            return;
        }
        self.teardown.active = true;
    }

    pub fn teardown_picker_up(&mut self)
        ensures
            final(self)@ == (AppView {
                teardown: PickerView {
                    idx: if old(self).teardown.idx > 0 {
                        (old(self).teardown.idx - 1) as usize
                    } else {
                        0
                    },
                    ..old(self)@.teardown
                },
                ..old(self)@
            }),
    {
        if self.teardown.idx > 0 {
            self.teardown.idx = self.teardown.idx - 1;
        }
    }

    pub fn teardown_picker_down(&mut self)
        ensures
            final(self)@ == (AppView {
                teardown: PickerView {
                    idx: if old(self).teardown.idx + 1 < old(self).teardown.snapshots@.len() {
                        (old(self).teardown.idx + 1) as usize
                    } else {
                        old(self).teardown.idx
                    },
                    ..old(self)@.teardown
                },
                ..old(self)@
            }),
    {
        if self.teardown.idx < self.teardown.snapshots.len() && self.teardown.idx + 1 < self.teardown.snapshots.len() {
            self.teardown.idx = self.teardown.idx + 1;
        }
    }

    /// Confirms the selection: the picker closes and the index of the
    /// chosen snapshot is returned (`None` when the index is past the
    /// list). The caller then runs the teardown with it.
    pub fn teardown_picker_confirm(&mut self, now: &str) -> (chosen: Option<usize>)
        ensures
            chosen == if old(self).teardown.idx < old(self).teardown.snapshots@.len() {
                Some(old(self).teardown.idx)
            } else {
                None
            },
            final(self)@ == {
                let v1 = AppView { teardown: PickerView { active: false, ..old(self)@.teardown }, ..old(self)@ };
                match chosen {
                    Some(i) => logged(
                        v1,
                        now@,
                        LogLevel::Info,
                        "Restoring config from "@ + old(self).teardown.snapshots@[i as int].timestamp_str@,
                    ),
                    None => v1,
                }
            },
    {
        let idx = self.teardown.idx;
        self.teardown.active = false;
        if idx < self.teardown.snapshots.len() {
            let mut msg = String::new();
            msg.append("Restoring config from ");
            msg.append(self.teardown.snapshots[idx].timestamp_str.as_str());
            self.log(now, LogLevel::Info, msg.as_str());
            Some(idx)
        } else {
            None
        }
    }

    pub fn teardown_picker_cancel(&mut self, now: &str)
        ensures
            final(self)@ == logged(
                AppView { teardown: PickerView { active: false, ..old(self)@.teardown }, ..old(self)@ },
                now@,
                LogLevel::Info,
                "Teardown cancelled"@,
            ),
    {
        self.teardown.active = false;
        self.log(now, LogLevel::Info, "Teardown cancelled");
    }

    /// A teardown begins. The caller then runs the cleanup.
    pub fn teardown_begin(&mut self, now: &str)
        ensures
            final(self)@ == event_logged(
                logged(old(self)@, now@, LogLevel::Info, "Running teardown..."@),
                "teardown"@,
                "started"@,
            ),
    {
        self.log(now, LogLevel::Info, "Running teardown...");
        self.log_event("teardown", "started");
    }

    /// Records the status of the teardown cleanup.
    pub fn teardown_cleanup_done(&mut self, now: &str, status: Status)
        ensures
            final(self)@ == if status == Status::Success {
                logged(old(self)@, now@, LogLevel::Success, "Teardown cleanup done"@)
            } else {
                logged(old(self)@, now@, LogLevel::Error, "Teardown cleanup error: "@ + status_name(status))
            },
    {
        match status {
            Status::Success => self.log(now, LogLevel::Success, "Teardown cleanup done"),
            other => {
                let mut msg = String::new();
                msg.append("Teardown cleanup error: ");
                push_status_name(&mut msg, other);
                self.log(now, LogLevel::Error, msg.as_str());
            },
        }
    }

    /// The chosen snapshot holds a configuration to restore. Returns
    /// whether the kernel parameters are to be removed from GRUB first,
    /// which is the case when it isolates no cores.
    pub fn teardown_restore_begin(&mut self, now: &str, cores_empty: bool) -> (clean_grub: bool)
        ensures
            clean_grub == cores_empty,
            final(self)@ == restore_begun(old(self)@, now@, cores_empty),
    {
        self.log(now, LogLevel::Info, "Re-applying pre-apply state...");
        self.log_event("teardown", "re-applying preconfig");
        if cores_empty {
            self.log(now, LogLevel::Info, "GRUB: removing ubenchmon kernel params...");
        }
        cores_empty
    }

    /// Records the outcome of re-applying the snapshot's configuration.
    /// Returns whether verification is to be refreshed now; when a reboot
    /// is needed the reboot modal is shown instead, and refreshes on dismiss.
    pub fn teardown_restore_done(&mut self, now: &str, result: &SetupResult, cores_empty: bool) -> (refresh: bool)
        ensures
            refresh == !(result.reboot_required || cores_empty),
            final(self)@ == restore_logged(old(self)@, now@, *result, cores_empty),
    {
        let mut detail = String::new();
        detail.append("preconfig restore status=");
        push_status_name(&mut detail, result.status);
        detail.append(" reboot=");
        if result.reboot_required {
            detail.append("true");
        } else {
            detail.append("false");
        }
        self.log_event("teardown", detail.as_str());
        match result.status {
            Status::Success => self.log(now, LogLevel::Success, "Pre-apply state restored"),
            Status::ErrPartial => self.log(now, LogLevel::Success, "Pre-apply state restored"),
            Status::ErrPerm => self.log(now, LogLevel::Error, "Restore failed: need root"),
            other => {
                let mut msg = String::new();
                msg.append("Restore finished with: ");
                push_status_name(&mut msg, other);
                self.log(now, LogLevel::Error, msg.as_str());
            },
        }
        if result.reboot_required || cores_empty {
            self.log(now, LogLevel::Warn, "GRUB was modified — reboot required to fully restore kernel params");
            self.show_reboot_modal(true);
            return false;
        }
        true
    }

    /// Decides what follows a teardown's cleanup: restoring the chosen
    /// snapshot's configuration, or, when the snapshot holds none or no
    /// snapshot was chosen, refreshing verification.
    pub fn teardown_next(&mut self, now: &str, snap: Option<ConfigSnapshot>) -> (r: TeardownStep)
        ensures
            step_after_cleanup(r, snap),
            final(self)@ == after_cleanup(old(self)@, now@, snap),
    {
        match snap {
            Some(s) => match s.config {
                Some(config) => {
                    let clean_grub = self.teardown_restore_begin(now, config.isolated_cores.len() == 0);
                    TeardownStep::Restore { config, clean_grub }
                },
                None => TeardownStep::RefreshVerify,
            },
            None => {
                self.teardown_without_snapshot(now);
                TeardownStep::RefreshVerify
            },
        }
    }

    /// The teardown had no snapshot to restore.
    pub fn teardown_without_snapshot(&mut self, now: &str)
        ensures
            final(self)@ == logged(
                old(self)@,
                now@,
                LogLevel::Warn,
                "No preconfig to restore — only cleanup was performed"@,
            ),
    {
        self.log(now, LogLevel::Warn, "No preconfig to restore — only cleanup was performed");
    }
}

/// Moving through the teardown picker keeps the selection on a listed
/// snapshot.
pub proof fn lemma_picker_in_range(p: PickerView)
    requires
        p.idx < p.snapshots.len(),
    ensures
        (if p.idx > 0 {
            (p.idx - 1) as usize
        } else {
            0usize
        }) < p.snapshots.len(),
        (if p.idx + 1 < p.snapshots.len() {
            (p.idx + 1) as usize
        } else {
            p.idx
        }) < p.snapshots.len(),
{
}

} // verus!
