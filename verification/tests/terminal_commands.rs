use ubenchmon::app::App;
use ubenchmon::console::TerminalAction;
use ubenchmon::system::VerifyResult;

fn run(app: &mut App, cmd: &str) -> TerminalAction {
    app.terminal.input = cmd.to_owned();
    app.exec_terminal_command("t")
}

fn out_tail(app: &App, n: usize) -> Vec<String> {
    let o = &app.terminal.output;
    o[o.len() - n..].to_vec()
}

#[test]
fn empty_line_does_nothing() {
    let mut app = App::new("t", "0");
    let before = app.terminal.output.len();
    assert_eq!(run(&mut app, ""), TerminalAction::Done);
    assert_eq!(app.terminal.output.len(), before);
    assert!(app.terminal.history.is_empty());
}

#[test]
fn commands_are_echoed_and_remembered_once() {
    let mut app = App::new("t", "0");
    assert_eq!(run(&mut app, "ls -l"), TerminalAction::Shell("ls -l".to_owned()));
    assert_eq!(app.terminal.output.last().unwrap(), "$ ls -l");
    run(&mut app, "ls -l");
    run(&mut app, "pwd");
    assert_eq!(app.terminal.history, vec!["ls -l".to_owned(), "pwd".to_owned()]);
    assert!(app.terminal.input.is_empty());
}

#[test]
fn history_holds_at_most_500_commands() {
    let mut app = App::new("t", "0");
    for i in 0..502 {
        run(&mut app, &format!("echo {i}"));
    }
    assert_eq!(app.terminal.history.len(), 500);
    assert_eq!(app.terminal.history[0], "echo 2");
}

#[test]
fn builtins() {
    let mut app = App::new("t", "0");
    assert_eq!(run(&mut app, "help"), TerminalAction::Done);
    assert_eq!(out_tail(&app, 11)[0], "Built-in commands:");
    assert_eq!(run(&mut app, "verify"), TerminalAction::Verify);
    assert_eq!(run(&mut app, "ubenchmon verify"), TerminalAction::Verify);
    assert_eq!(run(&mut app, "log start"), TerminalAction::StartLogging);
    assert_eq!(run(&mut app, "log status"), TerminalAction::Done);
    assert_eq!(app.terminal.output.last().unwrap(), "Logging INACTIVE — type 'log start' to enable.");
    assert_eq!(run(&mut app, "service start"), TerminalAction::ServiceStart);
    assert_eq!(run(&mut app, "service enable"), TerminalAction::ServiceEnable);
    assert_eq!(app.terminal.output.last().unwrap(), "Installing systemd unit + starting persistent daemon...");
    assert_eq!(run(&mut app, "service status"), TerminalAction::ServiceStatus);
    assert_eq!(run(&mut app, "clear"), TerminalAction::Done);
    assert!(app.terminal.output.is_empty());
    assert_eq!(run(&mut app, "exit"), TerminalAction::Done);
    assert!(app.should_quit);
}

#[test]
fn log_commands_while_piggybacking() {
    let mut app = App::new("t", "0");
    app.service.piggyback = true;
    assert_eq!(run(&mut app, "log start"), TerminalAction::Done);
    assert_eq!(app.terminal.output.last().unwrap(), "Daemon is already logging — use 'service status' to see log path.");
    assert_eq!(run(&mut app, "log stop"), TerminalAction::Done);
    assert_eq!(app.terminal.output.last().unwrap(), "Logging is owned by the daemon — use 'service stop' to stop it.");
    assert_eq!(run(&mut app, "log status"), TerminalAction::DaemonLogStatus);
    app.report_daemon_logging("Service: RUNNING");
    assert_eq!(app.terminal.output.last().unwrap(), "Logging owned by daemon — Service: RUNNING");
}

#[test]
fn log_stop_and_status_of_own_log() {
    let mut app = App::new("t", "0");
    app.logging_started("t", Some("/l.jsonl".to_owned()));
    assert_eq!(run(&mut app, "log status"), TerminalAction::ActiveLogStatus);
    app.report_logging_active(2048);
    assert_eq!(app.terminal.output.last().unwrap(), "Logging ACTIVE → /l.jsonl  (2.0 KB)");
    app.report_log_path();
    assert_eq!(app.terminal.output.last().unwrap(), "Logging to: /l.jsonl");
    run(&mut app, "log stop");
    assert!(!app.log.logging_active);
    assert_eq!(app.terminal.output.last().unwrap(), "Metric logging stopped.");
}

#[test]
fn verify_report() {
    let mut app = App::new("t", "0");
    let v = VerifyResult {
        cpu_model: "Xeon".to_owned(),
        smt_disabled: true,
        swap_off: false,
        warnings: "w1\nw2\n".to_owned(),
        ..Default::default()
    };
    app.verify = Some(v);
    app.report_verify();
    assert_eq!(
        out_tail(&app, 3),
        vec![
            "CPU: Xeon | SMT: off ✓ | Isolated: no ✗ | Swap: on ✗ | Bare-metal: no ✗".to_owned(),
            "w1".to_owned(),
            "w2".to_owned()
        ]
    );
}

#[test]
fn service_follow_ups() {
    let mut app = App::new("t", "0");
    assert!(!app.service_start_check(Some(7)));
    assert_eq!(app.terminal.output.last().unwrap(), "Daemon already running (pid 7).");
    assert!(app.service_start_check(None));
    assert!(!app.service_start_done(&Err("nope".to_owned())));
    assert_eq!(app.terminal.output.last().unwrap(), "Error: nope");
    assert!(app.service_start_done(&Ok(())));
    assert_eq!(app.terminal.output.last().unwrap(), "Daemon started.");
    assert!(!app.service_stop_check(false, true));
    assert_eq!(app.terminal.output.last().unwrap(), "Daemon is not running.");
    assert!(app.service_stop_check(true, true));
    assert_eq!(out_tail(&app, 3)[0], "Warning: systemd unit is installed — daemon will restart on next boot.");
    app.service.active = true;
    app.service.piggyback = true;
    assert!(app.service_stop_done(&Ok(())));
    assert!(!app.service.active && !app.service.piggyback);
    assert!(app.service_enable_done(&Ok(())));
    assert_eq!(app.terminal.output.last().unwrap(), "Runtime setup (veth/IRQ/swap) will be re-applied automatically after every reboot.");
    assert!(app.service_disable_done(&Ok(())));
    assert_eq!(app.terminal.output.last().unwrap(), "Service disabled and unit removed.");
    app.report_service_status("a\nb");
    assert_eq!(out_tail(&app, 2), vec!["a".to_owned(), "b".to_owned()]);
}

#[test]
fn daemon_up_stops_own_log() {
    let mut app = App::new("t", "0");
    app.logging_started("t", Some("/l".to_owned()));
    app.after_daemon_up("t");
    assert!(app.log.logging_active);
    app.service.piggyback = true;
    app.after_daemon_up("t");
    assert!(!app.log.logging_active);
}

#[test]
fn shell_output_lines() {
    let mut app = App::new("t", "0");
    app.shell_output("one\r\ntwo\n", "bad\n");
    assert_eq!(out_tail(&app, 3), vec!["one".to_owned(), "two".to_owned(), "ERR: bad".to_owned()]);
    app.shell_failed("not found");
    assert_eq!(app.terminal.output.last().unwrap(), "exec error: not found");
}

#[test]
fn history_browsing() {
    let mut app = App::new("t", "0");
    run(&mut app, "a");
    run(&mut app, "b");
    app.terminal.input = "dra".to_owned();
    app.history_prev();
    assert_eq!(app.terminal.input, "b");
    app.history_prev();
    assert_eq!(app.terminal.input, "a");
    app.history_prev();
    assert_eq!(app.terminal.input, "a");
    app.history_next();
    assert_eq!(app.terminal.input, "b");
    app.history_next();
    assert_eq!(app.terminal.input, "dra");
    assert_eq!(app.terminal.history_idx, None);
}

#[test]
fn browsing_back_k_steps_and_forward_k_steps_restores_the_typed_text() {
    for k in 1..6usize {
        let mut app = App::new("t", "0");
        run(&mut app, "a");
        run(&mut app, "b");
        run(&mut app, "c");
        app.terminal.input = "typed".to_owned();
        let history = app.terminal.history.clone();
        for _ in 0..k {
            app.history_prev();
        }
        let oldest = if k >= 3 { "a" } else { ["c", "b"][k - 1] };
        assert_eq!(app.terminal.input, oldest);
        for _ in 0..k {
            app.history_next();
        }
        assert_eq!(app.terminal.input, "typed");
        assert_eq!(app.terminal.history_idx, None);
        assert_eq!(app.terminal.history, history);
        app.history_next();
        assert_eq!(app.terminal.input, "typed");
        assert_eq!(app.terminal.history_idx, None);
    }
}
