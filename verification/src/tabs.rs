//! The TUI's tabs and the sections of the Monitor tab, with the cyclic
//! order in which Tab / Shift-Tab and the arrow keys move through them.
use vstd::prelude::*;

verus! {

#[derive(Debug, Clone, Copy, PartialEq, Eq, Structural)]
pub enum Tab {
    Dashboard,
    Setup,
    Monitor,
    Logs,
    Terminal,
}

/// Position of a tab in the tab bar.
pub open spec fn tab_index(t: Tab) -> int {
    match t {
        Tab::Dashboard => 0,
        Tab::Setup => 1,
        Tab::Monitor => 2,
        Tab::Logs => 3,
        Tab::Terminal => 4,
    }
}

/// The tab at a position of the tab bar.
pub open spec fn tab_at(i: int) -> Tab {
    if i == 0 {
        Tab::Dashboard
    } else if i == 1 {
        Tab::Setup
    } else if i == 2 {
        Tab::Monitor
    } else if i == 3 {
        Tab::Logs
    } else {
        Tab::Terminal
    }
}

/// The tab to the right of `t` in the tab bar, wrapping around.
pub open spec fn tab_after(t: Tab) -> Tab {
    tab_at((tab_index(t) + 1) % 5)
}

/// The tab to the left of `t` in the tab bar, wrapping around.
pub open spec fn tab_before(t: Tab) -> Tab {
    tab_at((tab_index(t) + 4) % 5)
}

pub open spec fn tab_label(t: Tab) -> Seq<char> {
    match t {
        Tab::Dashboard => "Dashboard"@,
        Tab::Setup => "Setup"@,
        Tab::Monitor => "Monitor"@,
        Tab::Logs => "Logs"@,
        Tab::Terminal => "Terminal"@,
    }
}

pub open spec fn tab_hotkey(t: Tab) -> Seq<char> {
    match t {
        Tab::Dashboard => "F1"@,
        Tab::Setup => "F2"@,
        Tab::Monitor => "F3"@,
        Tab::Logs => "F4"@,
        Tab::Terminal => "F5"@,
    }
}

impl Tab {
    /// All tabs, in tab-bar order.
    pub const ALL: [Tab; 5] = [Tab::Dashboard, Tab::Setup, Tab::Monitor, Tab::Logs, Tab::Terminal];

    pub fn label(&self) -> (r: &'static str)
        ensures
            r@ == tab_label(*self),
    {
        match self {
            Tab::Dashboard => "Dashboard",
            Tab::Setup => "Setup",
            Tab::Monitor => "Monitor",
            Tab::Logs => "Logs",
            Tab::Terminal => "Terminal",
        }
    }

    /// The function key that selects the tab: `F1` for the first tab, and so on.
    pub fn hotkey(&self) -> (r: &'static str)
        ensures
            r@ == tab_hotkey(*self),
    {
        match self {
            Tab::Dashboard => "F1",
            Tab::Setup => "F2",
            Tab::Monitor => "F3",
            Tab::Logs => "F4",
            Tab::Terminal => "F5",
        }
    }

    /// The tab to the right, wrapping from the last to the first.
    pub fn next(&self) -> (r: Tab)
        ensures
            r == tab_after(*self),
    {
        match self {
            Tab::Dashboard => Tab::Setup,
            Tab::Setup => Tab::Monitor,
            Tab::Monitor => Tab::Logs,
            Tab::Logs => Tab::Terminal,
            Tab::Terminal => Tab::Dashboard,
        }
    }

    /// The tab to the left, wrapping from the first to the last.
    pub fn prev(&self) -> (r: Tab)
        ensures
            r == tab_before(*self),
    {
        match self {
            Tab::Dashboard => Tab::Terminal,
            Tab::Setup => Tab::Dashboard,
            Tab::Monitor => Tab::Setup,
            Tab::Logs => Tab::Monitor,
            Tab::Terminal => Tab::Logs,
        }
    }
}

/// `Tab::ALL` lists every tab once, each at its tab-bar position.
pub proof fn lemma_tab_all_order(t: Tab)
    ensures
        Tab::ALL[tab_index(t)] == t,
        tab_at(tab_index(t)) == t,
        0 <= tab_index(t) < 5,
{
}

/// Moving right then left, or left then right, returns to the same tab.
pub proof fn lemma_tab_next_prev_inverse(t: Tab)
    ensures
        tab_before(tab_after(t)) == t,
        tab_after(tab_before(t)) == t,
{
}

/// Moving right goes one position along the tab bar; five moves visit every
/// tab once and come back to the start.
pub proof fn lemma_tab_cycle(t: Tab)
    ensures
        tab_index(tab_after(t)) == (tab_index(t) + 1) % 5,
        tab_after(tab_after(tab_after(tab_after(tab_after(t))))) == t,
        t != tab_after(t),
        t != tab_after(tab_after(t)),
        t != tab_after(tab_after(tab_after(t))),
        t != tab_after(tab_after(tab_after(tab_after(t)))),
{
}

#[derive(Debug, Clone, Copy, PartialEq, Eq, Structural)]
pub enum MonitorSection {
    Cpu,
    Net,
    Disk,
}

pub open spec fn section_index(s: MonitorSection) -> int {
    match s {
        MonitorSection::Cpu => 0,
        MonitorSection::Net => 1,
        MonitorSection::Disk => 2,
    }
}

pub open spec fn section_at(i: int) -> MonitorSection {
    if i == 0 {
        MonitorSection::Cpu
    } else if i == 1 {
        MonitorSection::Net
    } else {
        MonitorSection::Disk
    }
}

pub open spec fn section_after(s: MonitorSection) -> MonitorSection {
    section_at((section_index(s) + 1) % 3)
}

pub open spec fn section_before(s: MonitorSection) -> MonitorSection {
    section_at((section_index(s) + 2) % 3)
}

pub open spec fn section_label(s: MonitorSection) -> Seq<char> {
    match s {
        MonitorSection::Cpu => "CPU"@,
        MonitorSection::Net => "Net"@,
        MonitorSection::Disk => "Disk"@,
    }
}

impl MonitorSection {
    /// The section after this one: CPU, Net, Disk, then CPU again.
    pub fn next(self) -> (r: Self)
        ensures
            r == section_after(self),
    {
        match self {
            Self::Cpu => Self::Net,
            Self::Net => Self::Disk,
            Self::Disk => Self::Cpu,
        }
    }

    /// The section before this one.
    pub fn prev(self) -> (r: Self)
        ensures
            r == section_before(self),
    {
        match self {
            Self::Cpu => Self::Disk,
            Self::Net => Self::Cpu,
            Self::Disk => Self::Net,
        }
    }

    pub fn label(self) -> (r: &'static str)
        ensures
            r@ == section_label(self),
    {
        match self {
            Self::Cpu => "CPU",
            Self::Net => "Net",
            Self::Disk => "Disk",
        }
    }
}

/// `next` and `prev` undo each other, and three steps of `next` come back.
pub proof fn lemma_section_cycle(s: MonitorSection)
    ensures
        section_before(section_after(s)) == s,
        section_after(section_before(s)) == s,
        section_after(section_after(section_after(s))) == s,
        s != section_after(s),
        s != section_after(section_after(s)),
{
}

} // verus!
