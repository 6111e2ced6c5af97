//! Feeding monitor snapshots into the histories the Monitor tab draws.
use vstd::prelude::*;
use crate::app::{
    item_views, lemma_item_views, lemma_item_views_empty, lemma_item_views_push, lemma_item_views_update, new_series, series_push,
    histories_paired, App, AppView, MonitorView, SeriesView, TimeSeries,
};
use crate::system::{MemSample, Snapshot};
use crate::text::{nat_text, push_u64};

verus! {

/// A history after `v` is recorded.
pub open spec fn pushed(s: SeriesView, v: u64) -> SeriesView {
    SeriesView { data: series_push(s.data, s.max, v), ..s }
}

/// The histories with one added, labelled from `labels`, for each of the
/// first `n` positions that has none yet.
pub open spec fn grown(h: Seq<SeriesView>, labels: Seq<Seq<char>>, n: nat) -> Seq<SeriesView> {
    Seq::new(
        if h.len() >= n {
            h.len()
        } else {
            n
        },
        |i: int|
            if i < h.len() {
                h[i]
            } else {
                new_series(labels[i])
            },
    )
}

/// The histories after value `i` is recorded into history `i` for each
/// value, histories missing for a value being added first.
pub open spec fn fed(h: Seq<SeriesView>, vals: Seq<u64>, labels: Seq<Seq<char>>) -> Seq<SeriesView> {
    let g = grown(h, labels, vals.len());
    Seq::new(
        g.len(),
        |i: int|
            if i < vals.len() {
                pushed(g[i], vals[i])
            } else {
                g[i]
            },
    )
}

pub open spec fn core_label(i: int) -> Seq<char> {
    "Core "@ + nat_text(i as nat)
}

pub open spec fn cpu_values(s: Snapshot) -> Seq<u64> {
    Seq::new(s.cpu@.len(), |i: int| s.cpu@[i].usage_centipct)
}

pub open spec fn cpu_labels(s: Snapshot) -> Seq<Seq<char>> {
    Seq::new(s.cpu@.len(), |i: int| core_label(i))
}

pub open spec fn rx_values(s: Snapshot) -> Seq<u64> {
    Seq::new(s.net@.len(), |i: int| s.net@[i].rx_bytes)
}

pub open spec fn tx_values(s: Snapshot) -> Seq<u64> {
    Seq::new(s.net@.len(), |i: int| s.net@[i].tx_bytes)
}

pub open spec fn net_labels(s: Snapshot, suffix: Seq<char>) -> Seq<Seq<char>> {
    Seq::new(s.net@.len(), |i: int| s.net@[i].iface@ + suffix)
}

pub open spec fn disk_values(s: Snapshot) -> Seq<u64> {
    Seq::new(s.disk@.len(), |i: int| s.disk@[i].io_in_progress)
}

pub open spec fn disk_labels(s: Snapshot) -> Seq<Seq<char>> {
    Seq::new(s.disk@.len(), |i: int| s.disk@[i].device@ + " IO"@)
}

/// Used memory in hundredths of a percent of the total, rounded down (and
/// held at `u64::MAX`, which no real reading comes near).
pub open spec fn mem_centipct(m: MemSample) -> u64 {
    let p = m.used_bytes as int * 10000 / m.total_bytes as int;
    if p > u64::MAX {
        u64::MAX
    } else {
        p as u64
    }
}

/// The monitor after a snapshot is taken in.
pub open spec fn ingested(m: MonitorView, s: Snapshot) -> MonitorView {
    MonitorView {
        latest_snapshot: Some(s),
        cpu_history: fed(m.cpu_history, cpu_values(s), cpu_labels(s)),
        mem_history: if s.mem.total_bytes > 0 {
            pushed(m.mem_history, mem_centipct(s.mem))
        } else {
            m.mem_history
        },
        net_rx_history: fed(m.net_rx_history, rx_values(s), net_labels(s, " RX"@)),
        net_tx_history: fed(m.net_tx_history, tx_values(s), net_labels(s, " TX"@)),
        disk_io_history: fed(m.disk_io_history, disk_values(s), disk_labels(s)),
        capture_latency_history: pushed(m.capture_latency_history, s.capture_latency_ns),
        ..m
    }
}

/// Where the next snapshot comes from.
#[derive(Debug, Clone, Copy, PartialEq, Eq, Structural)]
pub enum SnapshotSource {
    /// The daemon's snapshot file (piggyback mode).
    Daemon,
    /// The TUI's own monitor.
    Monitor,
    /// Nowhere: no snapshot this tick.
    Nothing,
}

pub open spec fn source_of(v: AppView) -> SnapshotSource {
    if v.service.piggyback {
        SnapshotSource::Daemon
    } else if v.monitor.own_monitor {
        SnapshotSource::Monitor
    } else {
        SnapshotSource::Nothing
    }
}

/// Records value `i` into history `i`, adding missing histories first.
fn feed(h: &mut Vec<TimeSeries>, vals: &Vec<u64>, labels: &Vec<String>)
    requires
        labels@.len() == vals@.len(),
    ensures
        item_views(final(h)@) == fed(item_views(old(h)@), vals@, item_views(labels@)),
{
    let ghost old_v = item_views(h@);
    let ghost labs = item_views(labels@);
    let ghost target: nat = if old_v.len() >= vals@.len() {
        old_v.len()
    } else {
        vals@.len()
    };
    proof {
        lemma_item_views(old(h)@);
        lemma_item_views(labels@);
        assert(item_views(h@) =~= Seq::new(
            h@.len(),
            |i: int|
                if i < old_v.len() {
                    old_v[i]
                } else {
                    new_series(labs[i])
                },
        ));
    }
    while h.len() < vals.len()
        invariant
            labels@.len() == vals@.len(),
            labs == item_views(labels@),
            labs.len() == labels@.len(),
            forall|i: int| 0 <= i < labels@.len() ==> #[trigger] labs[i] == labels@[i]@,
            old_v.len() <= h@.len() <= target,
            target == if old_v.len() >= vals@.len() {
                old_v.len()
            } else {
                vals@.len()
            },
            item_views(h@) == Seq::new(
                h@.len(),
                |i: int|
                    if i < old_v.len() {
                        old_v[i]
                    } else {
                        new_series(labs[i])
                    },
            ),
        decreases vals@.len() - h@.len(),
    {
        let k = h.len();
        let t = TimeSeries::new(labels[k].as_str());
        let ghost before = h@;
        proof {
            lemma_item_views_push(before, t);
        }
        h.push(t);
        assert(item_views(h@) =~= Seq::new(
            h@.len(),
            |i: int|
                if i < old_v.len() {
                    old_v[i]
                } else {
                    new_series(labs[i])
                },
        ));
    }
    let ghost g = item_views(h@);
    assert(g =~= grown(old_v, labs, vals@.len()));
    let mut i: usize = 0;
    while i < vals.len()
        invariant
            i <= vals@.len() <= h@.len(),
            g.len() == h@.len(),
            item_views(h@) == Seq::new(
                g.len(),
                |j: int|
                    if j < i {
                        pushed(g[j], vals@[j])
                    } else {
                        g[j]
                    },
            ),
        decreases vals@.len() - i,
    {
        let ghost before = h@;
        proof {
            lemma_item_views(before);
        }
        assert(item_views(before)[i as int] == g[i as int]);
        assert(before[i as int]@ == g[i as int]);
        h[i].push(vals[i]);
        proof {
            assert(h@ == before.update(i as int, h@[i as int]));
            assert(h@[i as int]@ == pushed(g[i as int], vals@[i as int]));
            lemma_item_views_update(before, i as int, h@[i as int]);
        }
        i = i + 1;
        assert(item_views(h@) =~= Seq::new(
            g.len(),
            |j: int|
                if j < i {
                    pushed(g[j], vals@[j])
                } else {
                    g[j]
                },
        ));
    }
    assert(item_views(h@) =~= fed(old_v, vals@, labs));
}

/// The per-core values and labels of a snapshot.
fn cpu_inputs(s: &Snapshot) -> (r: (Vec<u64>, Vec<String>))
    ensures
        r.0@ == cpu_values(*s),
        item_views(r.1@) == cpu_labels(*s),
        r.1@.len() == r.0@.len(),
{
    let mut vals: Vec<u64> = Vec::new();
    let mut labels: Vec<String> = Vec::new();
    let mut i: usize = 0;
    proof {
        lemma_item_views_empty::<String>();
        assert(labels@ =~= Seq::<String>::empty());
    }
    while i < s.cpu.len()
        invariant
            i <= s.cpu@.len(),
            vals@ == cpu_values(*s).take(i as int),
            item_views(labels@) == cpu_labels(*s).take(i as int),
        decreases s.cpu@.len() - i,
    {
        vals.push(s.cpu[i].usage_centipct);
        let mut l = String::new();
        l.append("Core ");
        push_u64(&mut l, i as u64);
        let ghost before = labels@;
        proof {
            lemma_item_views_push(before, l);
        }
        labels.push(l);
        assert(vals@ =~= cpu_values(*s).take(i + 1));
        assert(item_views(labels@) =~= cpu_labels(*s).take(i + 1));
        i = i + 1;
    }
    assert(vals@ =~= cpu_values(*s));
    assert(item_views(labels@) =~= cpu_labels(*s));
    proof {
        lemma_item_views(labels@);
    }
    (vals, labels)
}

/// The per-interface values and labels of a snapshot.
fn net_inputs(s: &Snapshot) -> (r: (Vec<u64>, Vec<u64>, Vec<String>, Vec<String>))
    ensures
        r.0@ == rx_values(*s),
        r.1@ == tx_values(*s),
        item_views(r.2@) == net_labels(*s, " RX"@),
        item_views(r.3@) == net_labels(*s, " TX"@),
        r.2@.len() == r.0@.len(),
        r.3@.len() == r.1@.len(),
{
    let mut rx: Vec<u64> = Vec::new();
    let mut tx: Vec<u64> = Vec::new();
    let mut rl: Vec<String> = Vec::new();
    let mut tl: Vec<String> = Vec::new();
    let mut i: usize = 0;
    proof {
        lemma_item_views_empty::<String>();
        assert(rl@ =~= Seq::<String>::empty());
        assert(tl@ =~= Seq::<String>::empty());
    }
    while i < s.net.len()
        invariant
            i <= s.net@.len(),
            rx@ == rx_values(*s).take(i as int),
            tx@ == tx_values(*s).take(i as int),
            item_views(rl@) == net_labels(*s, " RX"@).take(i as int),
            item_views(tl@) == net_labels(*s, " TX"@).take(i as int),
        decreases s.net@.len() - i,
    {
        rx.push(s.net[i].rx_bytes);
        tx.push(s.net[i].tx_bytes);
        let mut a = String::new();
        a.append(s.net[i].iface.as_str());
        a.append(" RX");
        let mut b = String::new();
        b.append(s.net[i].iface.as_str());
        b.append(" TX");
        let ghost r0 = rl@;
        let ghost t0 = tl@;
        proof {
            lemma_item_views_push(r0, a);
            lemma_item_views_push(t0, b);
        }
        rl.push(a);
        tl.push(b);
        assert(rx@ =~= rx_values(*s).take(i + 1));
        assert(tx@ =~= tx_values(*s).take(i + 1));
        assert(item_views(rl@) =~= net_labels(*s, " RX"@).take(i + 1));
        assert(item_views(tl@) =~= net_labels(*s, " TX"@).take(i + 1));
        i = i + 1;
    }
    assert(rx@ =~= rx_values(*s));
    assert(tx@ =~= tx_values(*s));
    assert(item_views(rl@) =~= net_labels(*s, " RX"@));
    assert(item_views(tl@) =~= net_labels(*s, " TX"@));
    proof {
        lemma_item_views(rl@);
        lemma_item_views(tl@);
    }
    (rx, tx, rl, tl)
}

/// The per-disk values and labels of a snapshot.
fn disk_inputs(s: &Snapshot) -> (r: (Vec<u64>, Vec<String>))
    ensures
        r.0@ == disk_values(*s),
        item_views(r.1@) == disk_labels(*s),
        r.1@.len() == r.0@.len(),
{
    let mut vals: Vec<u64> = Vec::new();
    let mut labels: Vec<String> = Vec::new();
    let mut i: usize = 0;
    proof {
        lemma_item_views_empty::<String>();
        assert(labels@ =~= Seq::<String>::empty());
    }
    while i < s.disk.len()
        invariant
            i <= s.disk@.len(),
            vals@ == disk_values(*s).take(i as int),
            item_views(labels@) == disk_labels(*s).take(i as int),
        decreases s.disk@.len() - i,
    {
        vals.push(s.disk[i].io_in_progress);
        let mut l = String::new();
        l.append(s.disk[i].device.as_str());
        l.append(" IO");
        let ghost before = labels@;
        proof {
            lemma_item_views_push(before, l);
        }
        labels.push(l);
        assert(vals@ =~= disk_values(*s).take(i + 1));
        assert(item_views(labels@) =~= disk_labels(*s).take(i + 1));
        i = i + 1;
    }
    assert(vals@ =~= disk_values(*s));
    assert(item_views(labels@) =~= disk_labels(*s));
    proof {
        lemma_item_views(labels@);
    }
    (vals, labels)
}

/// Used memory in hundredths of a percent of a nonzero total.
pub fn mem_usage(m: &MemSample) -> (r: u64)
    requires
        m.total_bytes > 0,
    ensures
        r == mem_centipct(*m),
{
    let p: u128 = (m.used_bytes as u128) * 10000 / (m.total_bytes as u128);
    if p > u64::MAX as u128 {
        u64::MAX
    } else {
        p as u64
    }
}

impl App {
    /// Counts a tick and says where its snapshot comes from; the caller
    /// fetches it and hands it to `ingest_snapshot`.
    pub fn tick(&mut self) -> (src: SnapshotSource)
        requires
            old(self).tick_count < u64::MAX,
        ensures
            src == source_of(old(self)@),
            final(self)@ == (AppView { tick_count: (old(self).tick_count + 1) as u64, ..old(self)@ }),
    {
        self.tick_count = self.tick_count + 1;
        if self.service.piggyback {
            SnapshotSource::Daemon
        } else if self.monitor.own_monitor {
            SnapshotSource::Monitor
        } else {
            SnapshotSource::Nothing
        }
    }

    /// Records a snapshot into every history and keeps it as the latest.
    /// Returns whether the TUI is to write it to its own metric log, which
    /// it does while logging and not piggybacking on a daemon.
    pub fn ingest_snapshot(&mut self, snap: Snapshot) -> (log_it: bool)
        ensures
            log_it == (old(self).log.logging_active && !old(self).service.piggyback),
            final(self)@ == (AppView { monitor: ingested(old(self)@.monitor, snap), ..old(self)@ }),
            histories_paired(old(self)@.monitor) ==> histories_paired(final(self)@.monitor),
    {
        let (cv, cl) = cpu_inputs(&snap);
        feed(&mut self.monitor.cpu_history, &cv, &cl);
        if snap.mem.total_bytes > 0 {
            let p = mem_usage(&snap.mem);
            self.monitor.mem_history.push(p);
        }
        let (rx, tx, rl, tl) = net_inputs(&snap);
        feed(&mut self.monitor.net_rx_history, &rx, &rl);
        feed(&mut self.monitor.net_tx_history, &tx, &tl);
        let (dv, dl) = disk_inputs(&snap);
        feed(&mut self.monitor.disk_io_history, &dv, &dl);
        self.monitor.capture_latency_history.push(snap.capture_latency_ns);
        let log_it = self.log.logging_active && !self.service.piggyback;
        self.monitor.latest_snapshot = Some(snap);
        log_it
    }
}

/// Feeding values records value `i` as the newest entry of history `i`,
/// leaves the histories past the values as they were, and keeps at least
/// one history per value.
proof fn lemma_fed(h: Seq<SeriesView>, vals: Seq<u64>, labels: Seq<Seq<char>>)
    ensures
        fed(h, vals, labels).len() >= vals.len(),
        fed(h, vals, labels).len() >= h.len(),
        forall|i: int| 0 <= i < vals.len() ==> (#[trigger] fed(h, vals, labels)[i]).data.last() == vals[i],
        forall|i: int| vals.len() <= i < h.len() ==> #[trigger] fed(h, vals, labels)[i] == h[i],
{
}

/// Taking in a snapshot records each reading in its own history: the
/// usage of core `i` as the newest value of CPU history `i`, the bytes
/// received and transmitted on interface `i` as the newest values of its
/// RX and TX histories, the I/O in progress on disk `i` in disk history
/// `i`, and the capture latency in the latency history. Histories of
/// readings the snapshot lacks are left as they were.
pub proof fn lemma_ingest_records_readings(m: MonitorView, s: Snapshot)
    ensures
        ({
            let r = ingested(m, s);
            &&& r.latest_snapshot == Some(s)
            &&& r.cpu_history.len() >= s.cpu@.len()
            &&& r.net_rx_history.len() >= s.net@.len()
            &&& r.net_tx_history.len() >= s.net@.len()
            &&& r.disk_io_history.len() >= s.disk@.len()
            &&& forall|i: int|
                0 <= i < s.cpu@.len() ==> (#[trigger] r.cpu_history[i]).data.last() == s.cpu@[i].usage_centipct
            &&& forall|i: int|
                0 <= i < s.net@.len() ==> (#[trigger] r.net_rx_history[i]).data.last() == s.net@[i].rx_bytes
            &&& forall|i: int|
                0 <= i < s.net@.len() ==> (#[trigger] r.net_tx_history[i]).data.last() == s.net@[i].tx_bytes
            &&& forall|i: int|
                0 <= i < s.disk@.len() ==> (#[trigger] r.disk_io_history[i]).data.last()
                    == s.disk@[i].io_in_progress
            &&& forall|i: int|
                s.net@.len() <= i < m.net_rx_history.len() ==> #[trigger] r.net_rx_history[i] == m.net_rx_history[i]
            &&& forall|i: int|
                s.net@.len() <= i < m.net_tx_history.len() ==> #[trigger] r.net_tx_history[i] == m.net_tx_history[i]
            &&& r.capture_latency_history.data.last() == s.capture_latency_ns
        }),
{
    lemma_fed(m.cpu_history, cpu_values(s), cpu_labels(s));
    lemma_fed(m.net_rx_history, rx_values(s), net_labels(s, " RX"@));
    lemma_fed(m.net_tx_history, tx_values(s), net_labels(s, " TX"@));
    lemma_fed(m.disk_io_history, disk_values(s), disk_labels(s));
}

/// The memory reading is recorded as the used share of the total in
/// hundredths of a percent, rounded down: the newest value `p` satisfies
/// `p * total <= used * 10000 < (p + 1) * total` (held at `u64::MAX` past
/// that). A snapshot with no total leaves the memory history unchanged.
pub proof fn lemma_ingest_memory_share(m: MonitorView, s: Snapshot)
    ensures
        s.mem.total_bytes > 0 ==> ({
            let p = ingested(m, s).mem_history.data.last() as int;
            let used = s.mem.used_bytes as int * 10000;
            let total = s.mem.total_bytes as int;
            &&& p * total <= used
            &&& (used < (p + 1) * total || p == u64::MAX)
        }),
        s.mem.total_bytes == 0 ==> ingested(m, s).mem_history == m.mem_history,
{
    if s.mem.total_bytes > 0 {
        let used = s.mem.used_bytes as int * 10000;
        let total = s.mem.total_bytes as int;
        let q = used / total;
        assert(q * total <= used && used < (q + 1) * total) by (nonlinear_arith)
            requires
                total > 0,
                used >= 0,
                q == used / total,
        ;
        if q > u64::MAX {
            assert((u64::MAX as int) * total <= q * total) by (nonlinear_arith)
                requires
                    total > 0,
                    q > u64::MAX,
            ;
        }
    }
}

} // verus!
