//! The command line: which of the program's entry points the arguments
//! select, and what the non-interactive ones print.
use vstd::prelude::*;
use crate::app::{item_views, lemma_item_views};
use crate::config::{int_texts, push_joined_ints, SetupConfig};
use crate::service::{mode_name, ServiceMode};
use crate::session::{push_status_name, status_name};
use crate::system::SetupResult;
use crate::text::{join, nat_text, push_u64, str_is};

verus! {

/// A `service` subcommand.
#[derive(Debug, Clone, Copy, PartialEq, Eq, Structural)]
pub enum ServiceCmd {
    Start,
    Stop,
    Enable,
    Disable,
    Status,
}

/// What the program is asked to do.
#[derive(Debug, Clone, Copy, PartialEq, Eq, Structural)]
pub enum CliCommand {
    /// `--daemon [transient|persistent]`: run as the background daemon.
    Daemon(ServiceMode),
    /// `service <cmd>`: manage the background service.
    Service(ServiceCmd),
    /// `service` with no known subcommand: print the usage.
    ServiceUsage,
    /// `launch-prefix [server|client]`: print the taskset/chrt prefix.
    LaunchPrefix { is_server: bool },
    /// Anything else: the interactive TUI.
    Tui,
}

/// Whether argument `i` is present and equal to `s`.
pub open spec fn arg_is(args: Seq<Seq<char>>, i: int, s: Seq<char>) -> bool {
    0 <= i < args.len() && args[i] == s
}

/// The entry point that the arguments (the program's name first) select.
pub open spec fn command_for(args: Seq<Seq<char>>) -> CliCommand {
    if arg_is(args, 1, "--daemon"@) {
        CliCommand::Daemon(
            if arg_is(args, 2, "persistent"@) {
                ServiceMode::Persistent
            } else {
                ServiceMode::Transient
            },
        )
    } else if arg_is(args, 1, "service"@) {
        if arg_is(args, 2, "start"@) {
            CliCommand::Service(ServiceCmd::Start)
        } else if arg_is(args, 2, "stop"@) {
            CliCommand::Service(ServiceCmd::Stop)
        } else if arg_is(args, 2, "enable"@) {
            CliCommand::Service(ServiceCmd::Enable)
        } else if arg_is(args, 2, "disable"@) {
            CliCommand::Service(ServiceCmd::Disable)
        } else if arg_is(args, 2, "status"@) {
            CliCommand::Service(ServiceCmd::Status)
        } else {
            CliCommand::ServiceUsage
        }
    } else if arg_is(args, 1, "launch-prefix"@) {
        CliCommand::LaunchPrefix { is_server: !arg_is(args, 2, "client"@) }
    } else {
        CliCommand::Tui
    }
}

fn arg_eq(args: &Vec<String>, i: usize, s: &str) -> (r: bool)
    ensures
        r == arg_is(item_views(args@), i as int, s@),
{
    proof {
        lemma_item_views(args@);
    }
    i < args.len() && str_is(args[i].as_str(), s)
}

/// Which entry point the arguments select.
pub fn parse_args(args: &Vec<String>) -> (r: CliCommand)
    ensures
        r == command_for(item_views(args@)),
{
    if arg_eq(args, 1, "--daemon") {
        CliCommand::Daemon(
            if arg_eq(args, 2, "persistent") {
                ServiceMode::Persistent
            } else {
                ServiceMode::Transient
            },
        )
    } else if arg_eq(args, 1, "service") {
        if arg_eq(args, 2, "start") {
            CliCommand::Service(ServiceCmd::Start)
        } else if arg_eq(args, 2, "stop") {
            CliCommand::Service(ServiceCmd::Stop)
        } else if arg_eq(args, 2, "enable") {
            CliCommand::Service(ServiceCmd::Enable)
        } else if arg_eq(args, 2, "disable") {
            CliCommand::Service(ServiceCmd::Disable)
        } else if arg_eq(args, 2, "status") {
            CliCommand::Service(ServiceCmd::Status)
        } else {
            CliCommand::ServiceUsage
        }
    } else if arg_eq(args, 1, "launch-prefix") {
        CliCommand::LaunchPrefix { is_server: !arg_eq(args, 2, "client") }
    } else {
        CliCommand::Tui
    }
}

/// What a successful `service` subcommand prints (`status` prints the
/// status itself).
pub open spec fn service_done_text(c: ServiceCmd) -> Seq<char> {
    match c {
        ServiceCmd::Start => "Daemon started."@,
        ServiceCmd::Stop => "Daemon stopped."@,
        ServiceCmd::Enable => "Service enabled and started."@,
        ServiceCmd::Disable => "Service disabled and unit removed."@,
        ServiceCmd::Status => ""@,
    }
}

pub fn service_done_message(c: ServiceCmd) -> (r: &'static str)
    ensures
        r@ == service_done_text(c),
{
    match c {
        ServiceCmd::Start => "Daemon started.",
        ServiceCmd::Stop => "Daemon stopped.",
        ServiceCmd::Enable => "Service enabled and started.",
        ServiceCmd::Disable => "Service disabled and unit removed.",
        ServiceCmd::Status => "",
    }
}

/// The usage of the `service` subcommands.
pub const SERVICE_USAGE: &'static str = "Usage: ubenchmon service [start|stop|enable|disable|status]\n\nstart    — start background daemon (transient, no reboot persistence)\nstop     — stop the daemon\nenable   — install systemd unit + start (persistent, restarts on boot)\ndisable  — stop + remove systemd unit\nstatus   — show daemon PID, mode, log path";

/// The daemon's first line on standard error.
pub open spec fn daemon_start_text(pid: u32, mode: ServiceMode) -> Seq<char> {
    "ubenchmon daemon: starting (pid="@ + nat_text(pid as nat) + ", mode="@ + mode_name(mode) + ")"@
}

pub fn daemon_start_message(pid: u32, mode: ServiceMode) -> (r: String)
    ensures
        r@ == daemon_start_text(pid, mode),
{
    let mut s = String::new();
    s.append("ubenchmon daemon: starting (pid=");
    push_u64(&mut s, pid as u64);
    s.append(", mode=");
    s.append(mode.as_str());
    s.append(")");
    s
}

/// What the daemon reports of the configuration it re-applies.
pub open spec fn daemon_config_text(c: crate::config::ConfigView) -> Seq<char> {
    "ubenchmon daemon: config loaded — isolcpus=["@ + join(int_texts(c.isolated_cores), ", "@) + "]  swap="@
        + crate::config::bool_text(c.disable_swap) + "  ns="@ + c.ns_server + "/"@ + c.ns_client
}

pub fn daemon_config_message(c: &SetupConfig) -> (r: String)
    ensures
        r@ == daemon_config_text(c@),
{
    let mut s = String::new();
    s.append("ubenchmon daemon: config loaded — isolcpus=[");
    push_joined_ints(&mut s, &c.isolated_cores, ", ");
    s.append("]  swap=");
    if c.disable_swap {
        s.append("true");
    } else {
        s.append("false");
    }
    s.append("  ns=");
    s.append(c.ns_server.as_str());
    s.append("/");
    s.append(c.ns_client.as_str());
    s
}

/// What the daemon reports of the setup it ran.
pub open spec fn daemon_setup_text(r: SetupResult) -> Seq<char> {
    "ubenchmon daemon: setup status="@ + status_name(r.status) + " reboot="@ + crate::config::bool_text(
        r.reboot_required,
    )
}

pub fn daemon_setup_message(r: &SetupResult) -> (m: String)
    ensures
        m@ == daemon_setup_text(*r),
{
    let mut s = String::new();
    s.append("ubenchmon daemon: setup status=");
    push_status_name(&mut s, r.status);
    s.append(" reboot=");
    if r.reboot_required {
        s.append("true");
    } else {
        s.append("false");
    }
    s
}

} // verus!
