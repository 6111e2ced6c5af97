use ubenchmon::cli::{daemon_start_message, parse_args, service_done_message, CliCommand, ServiceCmd, SERVICE_USAGE};
use ubenchmon::service::ServiceMode;

fn args(v: &[&str]) -> Vec<String> {
    v.iter().map(|s| s.to_string()).collect()
}

#[test]
fn arguments_select_the_entry_point() {
    assert_eq!(parse_args(&args(&["ubenchmon"])), CliCommand::Tui);
    assert_eq!(parse_args(&args(&["ubenchmon", "--daemon"])), CliCommand::Daemon(ServiceMode::Transient));
    assert_eq!(
        parse_args(&args(&["ubenchmon", "--daemon", "persistent"])),
        CliCommand::Daemon(ServiceMode::Persistent)
    );
    assert_eq!(parse_args(&args(&["ubenchmon", "service", "start"])), CliCommand::Service(ServiceCmd::Start));
    assert_eq!(parse_args(&args(&["ubenchmon", "service", "status"])), CliCommand::Service(ServiceCmd::Status));
    assert_eq!(parse_args(&args(&["ubenchmon", "service"])), CliCommand::ServiceUsage);
    assert_eq!(parse_args(&args(&["ubenchmon", "service", "restart"])), CliCommand::ServiceUsage);
    assert_eq!(parse_args(&args(&["ubenchmon", "launch-prefix"])), CliCommand::LaunchPrefix { is_server: true });
    assert_eq!(
        parse_args(&args(&["ubenchmon", "launch-prefix", "client"])),
        CliCommand::LaunchPrefix { is_server: false }
    );
    assert_eq!(parse_args(&args(&["ubenchmon", "other"])), CliCommand::Tui);
}

#[test]
fn service_messages() {
    assert_eq!(service_done_message(ServiceCmd::Start), "Daemon started.");
    assert_eq!(service_done_message(ServiceCmd::Enable), "Service enabled and started.");
    assert!(SERVICE_USAGE.starts_with("Usage: ubenchmon service [start|stop|enable|disable|status]\n\nstart "));
    assert_eq!(daemon_start_message(12, ServiceMode::Transient), "ubenchmon daemon: starting (pid=12, mode=transient)");
}
