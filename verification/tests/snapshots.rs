use ubenchmon::config::{to_json, SetupConfig};
use ubenchmon::snapshot_store::{capture_current_state, fmt_ts, list_snapshots, make_preview, LiveReadings, SnapshotDir};

#[test]
fn preview_of_a_config() {
    assert_eq!(
        make_preview(Some(&SetupConfig::default())),
        "isolcpus=[2,3,4,5]  swap=off  nohz=on  rcu=on  netem=25ms±5ms"
    );
    assert_eq!(make_preview(None), "  (unreadable)");
}

#[test]
fn snapshot_times_for_people() {
    assert_eq!(fmt_ts(1_700_000_000), "2023-11-14 22:13:20 UTC");
    assert_eq!(fmt_ts(u64::MAX), "1969-12-31 23:59:59 UTC");
    assert_eq!(fmt_ts(i64::MAX as u64), format!("{}s", i64::MAX));
}

#[test]
fn snapshots_are_listed_newest_first() {
    let cfg = to_json(&SetupConfig::default());
    let dirs = vec![
        SnapshotDir { name: "2023-11-14T22-13-20".to_owned(), preconfig: Some(cfg.clone()), config: Some(cfg.clone()) },
        SnapshotDir { name: "not-a-time".to_owned(), preconfig: Some(cfg.clone()), config: None },
        SnapshotDir { name: "2026-04-01T06-34-17".to_owned(), preconfig: Some(cfg.clone()), config: None },
    ];
    let l = list_snapshots(&dirs);
    assert_eq!(l.len(), 3);
    assert_eq!(l[0].timestamp_ns, 1_775_025_257_000_000_000);
    assert_eq!(l[0].path, "/var/lib/ubenchmon/snapshots/2026-04-01T06-34-17/preconfig.json");
    assert!(l[0].timestamp_str.ends_with(" [PRE]"));
    assert_eq!(l[1].timestamp_ns, 1_700_000_000_000_000_000);
    assert_eq!(l[2].timestamp_ns, 1_700_000_000_000_000_000);
    assert!(l[1].timestamp_str.ends_with(" [PRE]"));
    assert!(l[2].timestamp_str.ends_with(" [CFG]"));
    assert_eq!(l[1].timestamp_str, "2023-11-14 22:13:20 UTC [PRE]");
    assert_eq!(l[1].preview, "isolcpus=[2,3,4,5]  swap=off  nohz=on  rcu=on  netem=25ms±5ms");
}

#[test]
fn live_state_is_read_from_the_system() {
    let mut active = SetupConfig::default();
    active.server_cores = "6".to_owned();
    active.rt_priority = 70;
    let r = capture_current_state(LiveReadings {
        boost: Some("0\n".to_owned()),
        cmdline: "BOOT_IMAGE=/vmlinuz ro isolcpus=2,3,x nohz_full=2,3 quiet".to_owned(),
        swaps: "Filename\tType\n".to_owned(),
        netns_list: "ns_server (id: 0)\n".to_owned(),
        active: Some(active),
        randomize_va_space: "2\n".to_owned(),
        rmem_max: "26214400\n".to_owned(),
        timesyncd_state: "inactive\n".to_owned(),
    });
    assert_eq!(r.isolated_cores, vec![2, 3]);
    assert!(r.disable_frequency_boost);
    assert!(r.apply_nohz_full);
    assert!(!r.apply_rcu_nocbs);
    assert!(r.disable_swap);
    assert_eq!(r.ns_server, "ns_server");
    assert_eq!(r.ns_client, "");
    assert_eq!(r.server_cores, "6");
    assert_eq!(r.rt_priority, 70);
    assert!(!r.disable_aslr);
    assert!(r.tune_net_buffers);
    assert!(!r.drop_caches);
    assert!(r.stop_timesyncd);
}
