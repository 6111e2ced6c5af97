use ubenchmon::app::App;
use ubenchmon::service::ServiceMode;
use ubenchmon::system::VerifyResult;
use ubenchmon::tabs::{MonitorSection, Tab};
use ubenchmon::view::{
    checklist, checklist_title, cpu_title, disk_title, net_title, ready, recorder, status_hint, tab_title, tick_text,
    HintKind, Recorder,
};

#[test]
fn status_bar_recorder() {
    let mut a = App::new("t", "0");
    assert_eq!(recorder(&a), (Recorder::Nobody, " ○ ".to_owned()));
    a.logging_started("t", Some("p".to_owned()));
    assert_eq!(recorder(&a).1, " ◉ LOG ");
    a.service.active = true;
    assert_eq!(recorder(&a).1, " ● SVC ");
    a.service.piggyback = true;
    a.service.mode = Some(ServiceMode::Persistent);
    assert_eq!(recorder(&a), (Recorder::Daemon(Some(ServiceMode::Persistent)), " ◉ SVC[P] ".to_owned()));
    a.service.mode = Some(ServiceMode::Transient);
    assert_eq!(recorder(&a).1, " ◉ SVC[T] ");
}

#[test]
fn status_bar_hints() {
    let mut a = App::new("t", "1000");
    assert_eq!(status_hint(&a).0, HintKind::RootWarning);
    a.dismiss_root_warning();
    assert_eq!(status_hint(&a).1, "q:Quit  Tab:Switch  R:Refresh  ↑↓:Navigate  Enter:Edit/Toggle");
    a.active_tab = Tab::Monitor;
    a.monitor.section = MonitorSection::Net;
    assert_eq!(status_hint(&a).1, "←→=section [Net]  ↑↓/PgUp/PgDn/wheel=scroll  Home/End");
    a.active_tab = Tab::Terminal;
    a.terminal.focused = true;
    assert_eq!(status_hint(&a).1, "↑↓=history  PgUp/PgDn/wheel=scroll  Enter=run  Esc=unfocus");
    a.show_reboot_modal(false);
    assert_eq!(status_hint(&a), (HintKind::RebootPending, " ⚠ REBOOT PENDING — R to reboot / Esc to dismiss ".to_owned()));
    assert_eq!(tick_text(&a), "Tick #0");
    assert!(!ready(&a));
}

#[test]
fn titles() {
    let mut a = App::new("t", "0");
    assert_eq!(tab_title(Tab::Logs), " F4 Logs ");
    assert_eq!(cpu_title(&a, 8), " CPU Cores (8)  [←→ switch  ↑↓ scroll] ");
    assert_eq!(net_title(&a, 3, 2), " Network (3 ifaces) ");
    a.monitor.section = MonitorSection::Disk;
    assert_eq!(cpu_title(&a, 8), " CPU Cores (8) ");
    assert_eq!(disk_title(&a, 3, 2), " Disk I/O (3 devs)  [←→ switch  ↑↓ scroll] ");
    assert_eq!(disk_title(&a, 2, 2), " Disk I/O (2 devs) ");
}

#[test]
fn dashboard_checklist() {
    let v = VerifyResult { smt_disabled: false, cores_isolated: true, isolated_core_list: vec![2, 3], ..Default::default() };
    let c = checklist(&v);
    assert_eq!(c.len(), 10);
    assert_eq!(c[0], (false, "SMT / Hyper-Threading ENABLED — disable in BIOS/UEFI".to_owned()));
    assert_eq!(c[1], (true, format!("CPU cores isolated (isolcpus) {:?}", vec![2, 3])));
    assert_eq!(c[9].1, "TSO/GSO/GRO offloading disabled");
    assert_eq!(checklist_title(true), " Checklist — ALL PASSED ✓ ");
}
