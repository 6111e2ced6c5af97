use ubenchmon::system::Status;
use ubenchmon::tabs::{MonitorSection, Tab};

#[test]
fn tab_labels_and_hotkeys_follow_the_tab_bar() {
    let labels: Vec<&str> = Tab::ALL.iter().map(|t| t.label()).collect();
    assert_eq!(labels, vec!["Dashboard", "Setup", "Monitor", "Logs", "Terminal"]);
    let keys: Vec<&str> = Tab::ALL.iter().map(|t| t.hotkey()).collect();
    assert_eq!(keys, vec!["F1", "F2", "F3", "F4", "F5"]);
}

#[test]
fn tab_next_and_prev_wrap_around() {
    assert_eq!(Tab::Dashboard.next(), Tab::Setup);
    assert_eq!(Tab::Terminal.next(), Tab::Dashboard);
    assert_eq!(Tab::Dashboard.prev(), Tab::Terminal);
    assert_eq!(Tab::Logs.prev(), Tab::Monitor);
    for t in Tab::ALL.iter() {
        assert_eq!(t.next().prev(), *t);
        assert_eq!(t.prev().next(), *t);
        let mut u = *t;
        for _ in 0..5 {
            u = u.next();
        }
        assert_eq!(u, *t);
    }
}

#[test]
fn monitor_sections_cycle() {
    assert_eq!(MonitorSection::Cpu.next(), MonitorSection::Net);
    assert_eq!(MonitorSection::Net.next(), MonitorSection::Disk);
    assert_eq!(MonitorSection::Disk.next(), MonitorSection::Cpu);
    assert_eq!(MonitorSection::Cpu.prev(), MonitorSection::Disk);
    assert_eq!(MonitorSection::Cpu.label(), "CPU");
    assert_eq!(MonitorSection::Net.label(), "Net");
    assert_eq!(MonitorSection::Disk.label(), "Disk");
}

#[test]
fn status_codes_map_to_statuses() {
    assert_eq!(Status::from(0), Status::Success);
    assert_eq!(Status::from(-1), Status::ErrPerm);
    assert_eq!(Status::from(-2), Status::ErrReboot);
    assert_eq!(Status::from(-3), Status::ErrPartial);
    assert_eq!(Status::from(-8), Status::ErrBusy);
    assert_eq!(Status::from(-9), Status::Unknown(-9));
    assert_eq!(Status::from(7), Status::Unknown(7));
}
