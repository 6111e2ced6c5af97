use ubenchmon::service::{
    pid_file_content, pid_from_file_content, require_root, status_string, unit_file_content, ServiceMode,
};

#[test]
fn mode_words_and_labels() {
    assert_eq!(ServiceMode::Transient.as_str(), "transient");
    assert_eq!(ServiceMode::Persistent.as_str(), "persistent");
    assert_eq!(ServiceMode::Transient.label(), "transient (no reboot persistence)");
    assert_eq!(ServiceMode::Persistent.label(), "persistent (systemd, restarts on boot)");
}

#[test]
fn mode_file_reads_back() {
    for m in [ServiceMode::Transient, ServiceMode::Persistent] {
        assert_eq!(ServiceMode::from_file_content(m.as_str()), Some(m));
    }
    assert_eq!(ServiceMode::from_file_content("  persistent\n"), Some(ServiceMode::Persistent));
    assert_eq!(ServiceMode::from_file_content("other"), None);
}

#[test]
fn pid_file_reads_back() {
    assert_eq!(pid_from_file_content(&pid_file_content(4242)), Some(4242));
    assert_eq!(pid_from_file_content("1234\n"), Some(1234));
    assert_eq!(pid_from_file_content("abc"), None);
    assert_eq!(pid_from_file_content("-5"), None);
    assert_eq!(pid_from_file_content(""), None);
}

#[test]
fn root_is_checked_by_uid() {
    assert_eq!(require_root("0\n", "service enable"), Ok(()));
    assert_eq!(
        require_root("1000\n", "service enable"),
        Err("service enable requires root — rerun with sudo".to_owned())
    );
}

#[test]
fn status_strings() {
    assert_eq!(
        status_string(false, None, None, None, None),
        "Service: NOT running (no unit installed)\n  Hint: 'service start' or 'service enable'"
    );
    assert_eq!(
        status_string(true, None, None, None, None),
        "Service: unit installed but daemon NOT running\n  Hint: systemctl start ubenchmon.service"
    );
    assert_eq!(
        status_string(true, Some(77), Some(ServiceMode::Persistent), Some(120), Some("/var/log/ubenchmon/m.jsonl".to_owned())),
        "Service: RUNNING  pid=77  mode=persistent (systemd, restarts on boot)\n  systemd unit: installed\n  last snapshot: 120ms ago\n  log file: /var/log/ubenchmon/m.jsonl"
    );
    assert_eq!(
        status_string(false, Some(9), None, None, None),
        "Service: RUNNING  pid=9  mode=unknown mode\n  systemd unit: not installed\n  last snapshot: no snapshot yet\n  log file: none"
    );
}

#[test]
fn unit_file_runs_the_persistent_daemon() {
    let u = unit_file_content("/usr/local/bin/ubenchmon");
    assert!(u.starts_with("[Unit]\nDescription=ubenchmon continuous monitoring and logging service\n"));
    assert!(u.contains("\nExecStart=/usr/local/bin/ubenchmon --daemon persistent\n"));
    assert!(u.ends_with("[Install]\nWantedBy=multi-user.target\n"));
}
