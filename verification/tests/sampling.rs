use ubenchmon::app::App;
use ubenchmon::sampling::{mem_usage, SnapshotSource};
use ubenchmon::system::{CpuSample, DiskSample, MemSample, NetSample, Snapshot};

fn snap(cores: usize, nets: &[&str]) -> Snapshot {
    Snapshot {
        timestamp_ns: 1,
        capture_latency_ns: 2500,
        cpu: (0..cores).map(|i| CpuSample { core_id: i as i32, usage_centipct: 100 * i as u64, ..Default::default() }).collect(),
        mem: MemSample { total_bytes: 3, used_bytes: 1, ..Default::default() },
        net: nets.iter().map(|n| NetSample { iface: n.to_string(), rx_bytes: 10, tx_bytes: 20, ..Default::default() }).collect(),
        disk: vec![DiskSample { device: "sda".to_owned(), io_in_progress: 3, ..Default::default() }],
    }
}

#[test]
fn tick_says_where_snapshots_come_from() {
    let mut a = App::new("t", "0");
    assert_eq!(a.tick(), SnapshotSource::Nothing);
    a.monitor.own_monitor = true;
    assert_eq!(a.tick(), SnapshotSource::Monitor);
    a.service.piggyback = true;
    assert_eq!(a.tick(), SnapshotSource::Daemon);
    assert_eq!(a.tick_count, 3);
}

#[test]
fn snapshots_feed_the_histories() {
    let mut a = App::new("t", "0");
    assert!(!a.ingest_snapshot(snap(2, &["eth0"])));
    assert_eq!(a.monitor.cpu_history.len(), 2);
    assert_eq!(a.monitor.cpu_history[1].label, "Core 1");
    assert_eq!(a.monitor.cpu_history[1].as_slice(), vec![100]);
    assert_eq!(a.monitor.mem_history.as_slice(), vec![3333]);
    assert_eq!(a.monitor.net_rx_history[0].label, "eth0 RX");
    assert_eq!(a.monitor.net_tx_history[0].label, "eth0 TX");
    assert_eq!(a.monitor.net_tx_history[0].last(), 20);
    assert_eq!(a.monitor.disk_io_history[0].label, "sda IO");
    assert_eq!(a.monitor.capture_latency_history.last(), 2500);
    a.logging_started("t", Some("p".to_owned()));
    assert!(a.ingest_snapshot(snap(3, &["eth0", "lo"])));
    assert_eq!(a.monitor.cpu_history.len(), 3);
    assert_eq!(a.monitor.cpu_history[0].as_slice().len(), 2);
    assert_eq!(a.monitor.cpu_history[2].as_slice().len(), 1);
    assert_eq!(a.monitor.net_rx_history.len(), 2);
    assert_eq!(a.monitor.net_rx_history.len(), a.monitor.net_tx_history.len());
    assert!(a.monitor.latest_snapshot.is_some());
    a.service.piggyback = true;
    assert!(!a.ingest_snapshot(snap(1, &[])));
}

#[test]
fn memory_usage_in_hundredths_of_a_percent() {
    assert_eq!(mem_usage(&MemSample { total_bytes: 4, used_bytes: 1, ..Default::default() }), 2500);
    assert_eq!(mem_usage(&MemSample { total_bytes: 1, used_bytes: u64::MAX, ..Default::default() }), u64::MAX);
}
