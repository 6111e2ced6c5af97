use ubenchmon::app::App;
use ubenchmon::console::TerminalAction;
use ubenchmon::input::{handle_key, handle_mouse, scroll_down, scroll_up, Key, KeyAction, Wheel};
use ubenchmon::snapshot_store::ConfigSnapshot;
use ubenchmon::system::Snapshot;
use ubenchmon::tabs::{MonitorSection, Tab};

fn app() -> App {
    App::new("t", "0")
}

fn key(app: &mut App, k: Key) -> KeyAction {
    handle_key(app, "t", k, false, 30)
}

#[test]
fn scroll_helpers() {
    let mut o = 5usize;
    scroll_up(&mut o, 10, 12);
    assert_eq!(o, 12);
    scroll_down(&mut o, 20);
    assert_eq!(o, 0);
    let mut o = usize::MAX - 1;
    scroll_up(&mut o, 10, usize::MAX);
    assert_eq!(o, usize::MAX);
}

#[test]
fn global_keys() {
    let mut a = app();
    key(&mut a, Key::F(3));
    assert_eq!(a.active_tab, Tab::Monitor);
    a.active_tab = Tab::Dashboard;
    key(&mut a, Key::Tab);
    assert_eq!(a.active_tab, Tab::Setup);
    key(&mut a, Key::BackTab);
    assert_eq!(a.active_tab, Tab::Dashboard);
    assert_eq!(key(&mut a, Key::Char('r')), KeyAction::RefreshVerify);
    key(&mut a, Key::Char('q'));
    assert!(a.should_quit);
    let mut b = app();
    handle_key(&mut b, "t", Key::Char('c'), true, 30);
    assert!(b.should_quit);
}

#[test]
fn setup_selection_skips_item_24() {
    let mut a = app();
    a.active_tab = Tab::Setup;
    a.setup.selected_item = 23;
    key(&mut a, Key::Down);
    assert_eq!(a.setup.selected_item, 25);
    key(&mut a, Key::Up);
    assert_eq!(a.setup.selected_item, 23);
    a.setup.selected_item = 29;
    key(&mut a, Key::Down);
    assert_eq!(a.setup.selected_item, 29);
    assert_eq!(key(&mut a, Key::Enter), KeyAction::SetupEnter);
}

#[test]
fn setup_editing() {
    let mut a = app();
    a.active_tab = Tab::Setup;
    a.setup.editing = true;
    key(&mut a, Key::Char('4'));
    key(&mut a, Key::Char('2'));
    key(&mut a, Key::Backspace);
    assert_eq!(a.setup.edit_buffer, "4");
    assert_eq!(key(&mut a, Key::Enter), KeyAction::SetupCommit);
    key(&mut a, Key::Esc);
    assert!(!a.setup.editing);
    assert!(a.setup.edit_buffer.is_empty());
}

#[test]
fn modals_take_keys_first() {
    let mut a = App::new("t", "1000");
    a.active_tab = Tab::Terminal;
    key(&mut a, Key::Tab);
    assert_eq!(a.active_tab, Tab::Terminal);
    key(&mut a, Key::Enter);
    assert!(!a.modals.root_warning);
    a.show_reboot_modal(true);
    assert_eq!(key(&mut a, Key::Esc), KeyAction::RefreshVerify);
    a.show_reboot_modal(false);
    assert_eq!(key(&mut a, Key::Char('R')), KeyAction::Reboot);
    assert!(a.should_quit);
}

#[test]
fn picker_keys() {
    let mut a = app();
    let s = ConfigSnapshot { timestamp_ns: 1, timestamp_str: "X".to_owned(), path: String::new(), preview: String::new(), config: None };
    a.open_teardown_picker("t", vec![s.clone(), s]);
    key(&mut a, Key::Char('j'));
    assert_eq!(a.teardown.idx, 1);
    key(&mut a, Key::Char('i'));
    assert!(a.teardown.preview);
    assert_eq!(key(&mut a, Key::Enter), KeyAction::Teardown(Some(1)));
    assert!(!a.teardown.active);
}

#[test]
fn terminal_keys() {
    let mut a = app();
    a.active_tab = Tab::Terminal;
    key(&mut a, Key::Home);
    assert_eq!(a.terminal.scroll, a.terminal.output.len());
    key(&mut a, Key::Enter);
    assert!(a.terminal.focused);
    key(&mut a, Key::Char('q'));
    assert!(!a.should_quit);
    key(&mut a, Key::Char('s'));
    key(&mut a, Key::Backspace);
    for c in "pwd".chars() {
        key(&mut a, Key::Char(c));
    }
    assert_eq!(a.terminal.input, "qpwd");
    a.terminal.input = "pwd".to_owned();
    assert_eq!(key(&mut a, Key::Enter), KeyAction::Terminal(TerminalAction::Shell("pwd".to_owned())));
    assert_eq!(a.terminal.scroll, 0);
    key(&mut a, Key::Up);
    assert_eq!(a.terminal.input, "pwd");
    key(&mut a, Key::Esc);
    assert!(!a.terminal.focused);
    key(&mut a, Key::Char('Q'));
    assert!(a.should_quit);
}

#[test]
fn monitor_keys_and_wheel() {
    let mut a = app();
    a.active_tab = Tab::Monitor;
    key(&mut a, Key::Right);
    assert_eq!(a.monitor.section, MonitorSection::Net);
    key(&mut a, Key::Left);
    key(&mut a, Key::Left);
    assert_eq!(a.monitor.section, MonitorSection::Disk);
    key(&mut a, Key::Home);
    assert_eq!(a.monitor.cpu_scroll, 999);
    key(&mut a, Key::End);
    assert_eq!(a.monitor.disk_scroll, 0);
    a.monitor.section = MonitorSection::Cpu;
    let mut snap = Snapshot::default();
    snap.cpu = vec![Default::default(); 4];
    a.monitor.latest_snapshot = Some(snap);
    key(&mut a, Key::PageUp);
    assert_eq!(a.monitor.cpu_scroll, 4);
    handle_mouse(&mut a, Wheel::Down);
    assert_eq!(a.monitor.cpu_scroll, 1);
    a.active_tab = Tab::Logs;
    handle_mouse(&mut a, Wheel::Up);
    assert_eq!(a.log.scroll, 1);
    a.active_tab = Tab::Dashboard;
    handle_mouse(&mut a, Wheel::Up);
    assert_eq!(a.log.scroll, 1);
}

#[test]
fn scrolling_up_and_down_comes_back() {
    for (o, n, total) in [(0usize, 3usize, 10usize), (4, 6, 10), (7, 1, 9)] {
        let mut x = o;
        scroll_up(&mut x, n, total);
        scroll_down(&mut x, n);
        assert_eq!(x, o);
    }
}

#[test]
fn function_keys_switch_tabs_from_every_tab() {
    let tabs = [Tab::Dashboard, Tab::Setup, Tab::Monitor, Tab::Logs, Tab::Terminal];
    for from in tabs {
        for (i, to) in tabs.iter().enumerate() {
            let mut a = app();
            a.active_tab = from;
            key(&mut a, Key::F((i + 1) as u8));
            assert_eq!(a.active_tab, *to);
        }
    }
    let mut a = app();
    a.active_tab = Tab::Terminal;
    key(&mut a, Key::Enter);
    assert!(a.terminal.focused);
    key(&mut a, Key::F(1));
    assert_eq!(a.active_tab, Tab::Dashboard);
    let mut b = app();
    b.active_tab = Tab::Monitor;
    key(&mut b, Key::F(6));
    assert_eq!(b.active_tab, Tab::Monitor);
}
