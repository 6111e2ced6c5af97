//! Background service management: the two service modes, what the run
//! files hold, the systemd unit, and the status report.
//!
//! Two service modes:
//!   Transient  — daemon runs until explicitly stopped; does NOT survive reboot.
//!   Persistent — systemd unit installed; re-applies runtime setup on every boot
//!                and restarts the daemon automatically.
//!
//! Reading and writing the run files, spawning the daemon and talking to
//! systemd are the caller's part; this module decides what they mean.
use vstd::prelude::*;
use crate::text::{chars_of, nat_text, parse_u32_in, parse_u32_spec, push_u64, trim, trim_bounds, str_is};

verus! {

pub const RUN_DIR: &'static str = "/var/run/ubenchmon";

pub const PID_FILE: &'static str = "/var/run/ubenchmon/ubenchmon.pid";

pub const SNAP_FILE: &'static str = "/var/run/ubenchmon/snap.bin";

pub const SNAP_TMP: &'static str = "/var/run/ubenchmon/snap.tmp";

pub const MODE_FILE: &'static str = "/var/run/ubenchmon/service.mode";

pub const UNIT_FILE: &'static str = "/etc/systemd/system/ubenchmon.service";

#[derive(Debug, Clone, Copy, PartialEq, Eq, Structural)]
pub enum ServiceMode {
    Transient,
    Persistent,
}

pub open spec fn mode_name(m: ServiceMode) -> Seq<char> {
    match m {
        ServiceMode::Transient => "transient"@,
        ServiceMode::Persistent => "persistent"@,
    }
}

pub open spec fn mode_label(m: ServiceMode) -> Seq<char> {
    match m {
        ServiceMode::Transient => "transient (no reboot persistence)"@,
        ServiceMode::Persistent => "persistent (systemd, restarts on boot)"@,
    }
}

/// The mode that a mode file holding `content` records.
pub open spec fn mode_in_file(content: Seq<char>) -> Option<ServiceMode> {
    if trim(content) == "transient"@ {
        Some(ServiceMode::Transient)
    } else if trim(content) == "persistent"@ {
        Some(ServiceMode::Persistent)
    } else {
        None
    }
}

impl ServiceMode {
    /// The word written to the mode file.
    pub fn as_str(self) -> (r: &'static str)
        ensures
            r@ == mode_name(self),
    {
        match self {
            Self::Transient => "transient",
            Self::Persistent => "persistent",
        }
    }

    /// The description shown to the user.
    pub fn label(self) -> (r: &'static str)
        ensures
            r@ == mode_label(self),
    {
        match self {
            Self::Transient => "transient (no reboot persistence)",
            Self::Persistent => "persistent (systemd, restarts on boot)",
        }
    }

    /// Reads a mode file's content: its one word, surrounding whitespace
    /// ignored.
    pub fn from_file_content(content: &str) -> (r: Option<ServiceMode>)
        ensures
            r == mode_in_file(content@),
    {
        let v = chars_of(content);
        let (a, b) = trim_bounds(&v, 0, v.len());
        assert(v@.subrange(0, v@.len() as int) =~= content@);
        let t = crate::text::string_of(&v, a, b);
        if str_is(t.as_str(), "transient") {
            Some(ServiceMode::Transient)
        } else if str_is(t.as_str(), "persistent") {
            Some(ServiceMode::Persistent)
        } else {
            None
        }
    }
}

/// Writing a mode's word to the mode file and reading it back gives the mode.
pub proof fn lemma_mode_file_roundtrip(m: ServiceMode)
    ensures
        mode_in_file(mode_name(m)) == Some(m),
{
    reveal_strlit("transient");
    reveal_strlit("persistent");
    let w = mode_name(m);
    crate::text::lemma_leading_space_bound(w);
    crate::text::lemma_trailing_space_bound(w);
    assert(crate::text::leading_space(w) == 0);
    assert(w.skip(0) =~= w);
    assert(crate::text::trailing_space(w) == 0);
    assert(w.take(w.len() as int) =~= w);
    assert(trim(w) == w);
    if m == ServiceMode::Persistent {
        assert(w != "transient"@) by {
            assert(w.len() != "transient"@.len());
        }
    }
}

/// The PID that a PID file holding `content` records.
pub open spec fn pid_in_file(content: Seq<char>) -> Option<u32> {
    parse_u32_spec(trim(content))
}

/// Reads a PID file's content: one decimal number, surrounding whitespace
/// ignored.
pub fn pid_from_file_content(content: &str) -> (r: Option<u32>)
    ensures
        r == pid_in_file(content@),
{
    let v = chars_of(content);
    let (a, b) = trim_bounds(&v, 0, v.len());
    assert(v@.subrange(0, v@.len() as int) =~= content@);
    parse_u32_in(&v, a, b)
}

/// What the daemon writes to the PID file: its PID in decimal.
pub fn pid_file_content(pid: u32) -> (r: String)
    ensures
        r@ == nat_text(pid as nat),
{
    let mut s = String::new();
    push_u64(&mut s, pid as u64);
    s
}

/// The systemd unit that runs `exe` as the persistent daemon.
pub open spec fn unit_text(exe: Seq<char>) -> Seq<char> {
    "[Unit]\nDescription=ubenchmon continuous monitoring and logging service\nDocumentation=https://github.com/Lordnns/ubenchmon\nAfter=network.target\nDefaultDependencies=no\nBefore=shutdown.target\n\n[Service]\nType=simple\nExecStart="@
        + exe
        + " --daemon persistent\nRestart=always\nRestartSec=5\nTimeoutStopSec=10\nStandardOutput=journal\nStandardError=journal\nSyslogIdentifier=ubenchmon\n\n[Install]\nWantedBy=multi-user.target\n"@
}

/// The content of the systemd unit file for the daemon at path `exe`.
pub fn unit_file_content(exe: &str) -> (r: String)
    ensures
        r@ == unit_text(exe@),
{
    let mut s = String::new();
    s.append(
        "[Unit]\nDescription=ubenchmon continuous monitoring and logging service\nDocumentation=https://github.com/Lordnns/ubenchmon\nAfter=network.target\nDefaultDependencies=no\nBefore=shutdown.target\n\n[Service]\nType=simple\nExecStart=",
    );
    s.append(exe);
    s.append(
        " --daemon persistent\nRestart=always\nRestartSec=5\nTimeoutStopSec=10\nStandardOutput=journal\nStandardError=journal\nSyslogIdentifier=ubenchmon\n\n[Install]\nWantedBy=multi-user.target\n",
    );
    s
}

/// Whether `id -u` printed the root user's id.
pub open spec fn is_root_uid(uid_output: Seq<char>) -> bool {
    trim(uid_output) == "0"@
}

/// The check made before a root-only service command `ctx`: passes when
/// `id -u` printed `0`, else names the command that needs root.
pub fn require_root(uid_output: &str, ctx: &str) -> (r: Result<(), String>)
    ensures
        r is Ok <==> is_root_uid(uid_output@),
        r matches Err(e) ==> e@ == ctx@ + " requires root — rerun with sudo"@,
{
    let v = chars_of(uid_output);
    let (a, b) = trim_bounds(&v, 0, v.len());
    assert(v@.subrange(0, v@.len() as int) =~= uid_output@);
    let t = crate::text::string_of(&v, a, b);
    if str_is(t.as_str(), "0") {
        Ok(())
    } else {
        let mut e = String::new();
        e.append(ctx);
        e.append(" requires root — rerun with sudo");
        Err(e)
    }
}

/// The status report when no daemon is running.
pub open spec fn stopped_status_text(unit_installed: bool) -> Seq<char> {
    if unit_installed {
        "Service: unit installed but daemon NOT running\n  Hint: systemctl start ubenchmon.service"@
    } else {
        "Service: NOT running (no unit installed)\n  Hint: 'service start' or 'service enable'"@
    }
}

/// The status report of a running daemon.
pub open spec fn running_status_text(
    unit_installed: bool,
    pid: u32,
    mode: Option<ServiceMode>,
    snap_age_ms: Option<u64>,
    log_path: Option<Seq<char>>,
) -> Seq<char> {
    "Service: RUNNING  pid="@ + nat_text(pid as nat) + "  mode="@ + match mode {
        Some(m) => mode_label(m),
        None => "unknown mode"@,
    } + "\n  systemd unit: "@ + (if unit_installed {
        "installed"@
    } else {
        "not installed"@
    }) + "\n  last snapshot: "@ + match snap_age_ms {
        Some(ms) => nat_text(ms as nat) + "ms ago"@,
        None => "no snapshot yet"@,
    } + "\n  log file: "@ + match log_path {
        Some(p) => p,
        None => "none"@,
    }
}

pub open spec fn status_text(
    unit_installed: bool,
    pid: Option<u32>,
    mode: Option<ServiceMode>,
    snap_age_ms: Option<u64>,
    log_path: Option<Seq<char>>,
) -> Seq<char> {
    match pid {
        None => stopped_status_text(unit_installed),
        Some(p) => running_status_text(unit_installed, p, mode, snap_age_ms, log_path),
    }
}

/// Human-readable status of the service, from what the caller found: whether
/// the systemd unit is installed, the live daemon's PID, the recorded mode,
/// the age of the last snapshot and the newest metric log.
pub fn status_string(
    unit_installed: bool,
    pid: Option<u32>,
    mode: Option<ServiceMode>,
    snap_age_ms: Option<u64>,
    log_path: Option<String>,
) -> (r: String)
    ensures
        r@ == status_text(
            unit_installed,
            pid,
            mode,
            snap_age_ms,
            match log_path {
                Some(p) => Some(p@),
                None => None,
            },
        ),
{
    match pid {
        None => {
            if unit_installed {
                "Service: unit installed but daemon NOT running\n  Hint: systemctl start ubenchmon.service".to_owned()
            } else {
                "Service: NOT running (no unit installed)\n  Hint: 'service start' or 'service enable'".to_owned()
            }
        },
        Some(p) => {
            let mut s = String::new();
            s.append("Service: RUNNING  pid=");
            push_u64(&mut s, p as u64);
            s.append("  mode=");
            match mode {
                Some(m) => s.append(m.label()),
                None => s.append("unknown mode"),
            }
            s.append("\n  systemd unit: ");
            if unit_installed {
                s.append("installed");
            } else {
                s.append("not installed");
            }
            s.append("\n  last snapshot: ");
            match snap_age_ms {
                Some(ms) => {
                    push_u64(&mut s, ms);
                    s.append("ms ago");
                },
                None => s.append("no snapshot yet"),
            }
            s.append("\n  log file: ");
            match &log_path {
                Some(path) => s.append(path.as_str()),
                None => s.append("none"),
            }
            assert(s@ =~= status_text(
                unit_installed,
                pid,
                mode,
                snap_age_ms,
                match log_path {
                    Some(p) => Some(p@),
                    None => None,
                },
            ));
            s
        },
    }
}

} // verus!
