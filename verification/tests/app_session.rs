use ubenchmon::app::{App, LogLevel, TimeSeries};
use ubenchmon::service::ServiceMode;
use ubenchmon::config::SetupConfig;
use ubenchmon::session::{ServiceProbe, TeardownStep};
use ubenchmon::snapshot_store::ConfigSnapshot;
use ubenchmon::system::{SetupResult, Status, VerifyResult};

fn root_app() -> App {
    App::new("10:00:00.000", "0\n")
}

fn setup_result(status: Status, reboot: bool) -> SetupResult {
    SetupResult {
        status,
        reboot_required: reboot,
        message: String::new(),
        grub_modified: false,
        irq_migrated: false,
        namespaces_created: false,
        netem_applied: false,
        offloading_disabled: false,
        swap_disabled: false,
        services_stopped: false,
        frequency_locked: false,
        sysctl_tuned: false,
        caches_dropped: false,
        process_isolation_ready: false,
    }
}

fn last_message(app: &App) -> String {
    app.log.entries.last().unwrap().message.clone()
}

fn snapshot(ts: &str) -> ConfigSnapshot {
    ConfigSnapshot { timestamp_ns: 1, timestamp_str: ts.to_owned(), path: String::new(), preview: String::new(), config: None }
}

#[test]
fn new_app_as_root() {
    let app = root_app();
    assert!(!app.modals.root_warning);
    assert_eq!(app.log.entries.len(), 1);
    assert_eq!(app.log.entries[0].message, "ubenchmon TUI started");
    assert_eq!(app.log.entries[0].timestamp, "10:00:00.000");
    assert_eq!(app.terminal.output.len(), 5);
    assert_eq!(app.terminal.output[0], "ubenchmon terminal — type commands here");
}

#[test]
fn new_app_without_root_warns() {
    let app = App::new("t", "1000");
    assert!(app.modals.root_warning);
    assert_eq!(app.log.entries.len(), 3);
    assert_eq!(app.log.entries[1].level, LogLevel::Error);
    assert_eq!(app.log.entries[2].message, "Restart with: sudo ./ubenchmon");
}

#[test]
fn metric_log_start_and_stop() {
    let mut app = root_app();
    app.logging_started("t", None);
    assert!(!app.log.logging_active);
    assert_eq!(last_message(&app), "Could not open metric log file in /var/log/ubenchmon");
    app.logging_started("t", Some("/var/log/ubenchmon/metrics_x.jsonl".to_owned()));
    assert!(app.log.logging_active);
    assert_eq!(last_message(&app), "Metric log: /var/log/ubenchmon/metrics_x.jsonl");
    let ev = app.take_pending_events();
    assert_eq!(ev, vec![("success".to_owned(), "Metric log: /var/log/ubenchmon/metrics_x.jsonl".to_owned())]);
    app.log("t", LogLevel::Warn, "careful");
    assert_eq!(app.take_pending_events(), vec![("warn".to_owned(), "careful".to_owned())]);
    assert!(app.take_pending_events().is_empty());
    app.stop_logging("t");
    assert!(!app.log.logging_active);
    assert_eq!(app.log.path, None);
    assert_eq!(last_message(&app), "Metric logging stopped");
    assert!(app.take_pending_events().is_empty());
}

#[test]
fn refresh_with_a_running_daemon_piggybacks() {
    let mut app = root_app();
    app.refresh_verify("t", VerifyResult::default(), ServiceProbe::Running { pid: 42, mode: Some(ServiceMode::Transient) });
    assert!(app.service.active && app.service.piggyback);
    assert_eq!(app.service.mode, Some(ServiceMode::Transient));
    assert!(!app.monitor.own_monitor);
    assert_eq!(
        last_message(&app),
        "Daemon running (pid=42) [transient (no reboot persistence)] — TUI is piggybacking; close TUI freely, daemon keeps logging"
    );
}

#[test]
fn refresh_without_daemon_uses_own_monitor() {
    let mut app = root_app();
    app.refresh_verify("t", VerifyResult::default(), ServiceProbe::Absent { monitor_ok: true });
    assert!(!app.service.piggyback && app.monitor.own_monitor);
    assert_eq!(last_message(&app), "Monitor initialized (CPU+MEM+NET+DISK)");
    app.refresh_verify("t", VerifyResult::default(), ServiceProbe::Absent { monitor_ok: false });
    assert!(!app.monitor.own_monitor);
    assert_eq!(last_message(&app), "Monitor init failed — try running as root for perf counters");
}

#[test]
fn reboot_modal() {
    let mut app = root_app();
    app.show_reboot_modal(true);
    assert!(app.modals.reboot);
    assert!(app.dismiss_reboot_modal());
    assert!(!app.modals.reboot);
    app.show_reboot_modal(false);
    assert!(!app.dismiss_reboot_modal());
    app.show_reboot_modal(true);
    app.reboot_now();
    assert!(app.should_quit && !app.modals.reboot);
}

#[test]
fn teardown_request_and_warning() {
    let mut app = root_app();
    assert!(app.request_teardown("t", false));
    assert!(!app.request_teardown("t", true));
    assert!(app.modals.teardown_service_warn);
    assert!(!app.teardown_warn_disable_and_continue("t", &Err("boom".to_owned())));
    let n = app.log.entries.len();
    assert_eq!(app.log.entries[n - 2].message, "Failed to disable service: boom");
    assert_eq!(app.log.entries[n - 1].message, "Teardown aborted — resolve the service before retrying");
    app.service.active = true;
    assert!(app.teardown_warn_disable_and_continue("t", &Ok(())));
    assert!(!app.service.active);
    app.teardown_warn_cancel("t");
    assert_eq!(last_message(&app), "Teardown cancelled — persistent service left installed");
}

#[test]
fn teardown_picker() {
    let mut app = root_app();
    app.open_teardown_picker("t", vec![]);
    assert!(!app.teardown.active);
    assert_eq!(last_message(&app), "No saved config snapshots found — run Apply first to create a restore point");
    app.open_teardown_picker("t", vec![snapshot("A"), snapshot("B")]);
    assert!(app.teardown.active);
    app.teardown_picker_up();
    assert_eq!(app.teardown.idx, 0);
    app.teardown_picker_down();
    app.teardown_picker_down();
    assert_eq!(app.teardown.idx, 1);
    assert_eq!(app.teardown_picker_confirm("t"), Some(1));
    assert!(!app.teardown.active);
    assert_eq!(last_message(&app), "Restoring config from B");
    app.teardown.idx = 5;
    assert_eq!(app.teardown_picker_confirm("t"), None);
    app.teardown_picker_cancel("t");
    assert_eq!(last_message(&app), "Teardown cancelled");
}

#[test]
fn teardown_steps() {
    let mut app = root_app();
    app.logging_started("t", Some("p".to_owned()));
    app.take_pending_events();
    app.teardown_begin("t");
    assert_eq!(last_message(&app), "Running teardown...");
    app.teardown_cleanup_done("t", Status::ErrIo);
    assert_eq!(last_message(&app), "Teardown cleanup error: ErrIo");
    app.teardown_cleanup_done("t", Status::Unknown(-42));
    assert_eq!(last_message(&app), "Teardown cleanup error: Unknown(-42)");
    assert!(app.teardown_restore_begin("t", true));
    assert_eq!(last_message(&app), "GRUB: removing ubenchmon kernel params...");
    assert!(!app.teardown_restore_done("t", &setup_result(Status::ErrPartial, false), true));
    assert!(app.modals.reboot && app.modals.reboot_refresh_on_dismiss);
    let ev = app.take_pending_events();
    assert!(ev.contains(&("teardown".to_owned(), "preconfig restore status=ErrPartial reboot=false".to_owned())));
    assert!(app.teardown_restore_done("t", &setup_result(Status::Success, false), false));
    assert_eq!(last_message(&app), "Pre-apply state restored");
    assert!(app.teardown_restore_done("t", &setup_result(Status::ErrInval, false), false));
    assert_eq!(last_message(&app), "Restore finished with: ErrInval");
    app.teardown_without_snapshot("t");
    assert_eq!(last_message(&app), "No preconfig to restore — only cleanup was performed");
}

#[test]
fn time_series_keeps_the_latest_samples() {
    let mut s = TimeSeries::new("x");
    assert_eq!(s.last(), 0);
    for v in 0..301u64 {
        s.push(v);
    }
    let d = s.as_slice();
    assert_eq!(d.len(), 300);
    assert_eq!(d[0], 1);
    assert_eq!(s.last(), 300);
}

#[test]
fn what_follows_the_teardown_cleanup() {
    let mut app = root_app();
    let n = app.log.entries.len();
    assert!(matches!(app.teardown_next("t", None), TeardownStep::RefreshVerify));
    assert_eq!(last_message(&app), "No preconfig to restore — only cleanup was performed");
    assert_eq!(app.log.entries.len(), n + 1);

    assert!(matches!(app.teardown_next("t", Some(snapshot("A"))), TeardownStep::RefreshVerify));
    assert_eq!(app.log.entries.len(), n + 1);

    let mut with_cores = snapshot("B");
    with_cores.config = Some(SetupConfig::default());
    match app.teardown_next("t", Some(with_cores)) {
        TeardownStep::Restore { config, clean_grub } => {
            assert!(!clean_grub);
            assert_eq!(config.isolated_cores, vec![2, 3, 4, 5]);
        }
        other => panic!("unexpected {:?}", other),
    }
    assert_eq!(last_message(&app), "Re-applying pre-apply state...");

    let mut no_cores = snapshot("C");
    let mut cfg = SetupConfig::default();
    cfg.isolated_cores = Vec::new();
    no_cores.config = Some(cfg);
    match app.teardown_next("t", Some(no_cores)) {
        TeardownStep::Restore { config, clean_grub } => {
            assert!(clean_grub);
            assert!(config.isolated_cores.is_empty());
        }
        other => panic!("unexpected {:?}", other),
    }
    assert_eq!(last_message(&app), "GRUB: removing ubenchmon kernel params...");
}
