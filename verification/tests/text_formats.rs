use ubenchmon::logger::{event_text, fmt_size, ns_to_iso, snapshot_lines};
use ubenchmon::system::{CpuSample, DiskSample, MemSample, NetSample, Snapshot};
use ubenchmon::view::{fmt_bytes, scroll_hint, visible_rows};

#[test]
fn fmt_size_picks_the_unit() {
    assert_eq!(fmt_size(0), "0 B");
    assert_eq!(fmt_size(1023), "1023 B");
    assert_eq!(fmt_size(1024), "1.0 KB");
    assert_eq!(fmt_size(1536), "1.5 KB");
    assert_eq!(fmt_size(1_048_576), "1.0 MB");
    assert_eq!(fmt_size(5 * 1_048_576 + 524_288), "5.5 MB");
}

#[test]
fn fmt_size_rounds_as_float_formatting_does() {
    for b in [1024u64, 1075, 1126, 1177, 2047, 1_000_000, 1_048_575, 1_048_576, 3_000_000, 123_456_789] {
        let expect = if b < 1024 {
            format!("{b} B")
        } else if b < 1_048_576 {
            format!("{:.1} KB", b as f64 / 1024.0)
        } else {
            format!("{:.1} MB", b as f64 / 1_048_576.0)
        };
        assert_eq!(fmt_size(b), expect, "bytes {b}");
    }
}

#[test]
fn fmt_bytes_goes_up_to_gigabytes() {
    assert_eq!(fmt_bytes(512), "512 B");
    assert_eq!(fmt_bytes(2048), "2.0 KB");
    assert_eq!(fmt_bytes(3 * 1_048_576), "3.0 MB");
    assert_eq!(fmt_bytes(1_073_741_824), "1.0 GB");
    for b in [1_610_612_736u64, 5_000_000_000, 1_073_741_823] {
        let expect = if b >= 1_073_741_824 {
            format!("{:.1} GB", b as f64 / 1_073_741_824.0)
        } else {
            format!("{:.1} MB", b as f64 / 1_048_576.0)
        };
        assert_eq!(fmt_bytes(b), expect);
    }
}

#[test]
fn scroll_hints() {
    assert_eq!(scroll_hint(0, 5, 10), "");
    assert_eq!(scroll_hint(0, 20, 8), " (20 items — ↑/PgUp to scroll) ");
    assert_eq!(scroll_hint(12, 20, 8), " (top — ↓/PgDn to scroll down) ");
    assert_eq!(scroll_hint(5, 20, 8), " ↑5/12 — ↑↓/PgUp/PgDn ");
}

#[test]
fn visible_rows_clamp_the_scroll() {
    assert_eq!(visible_rows(0, 20, 8), (0, 8));
    assert_eq!(visible_rows(999, 20, 8), (12, 20));
    assert_eq!(visible_rows(3, 5, 8), (0, 5));
}

#[test]
fn ns_to_iso_renders_utc_microseconds() {
    assert_eq!(ns_to_iso(1_775_025_257_123_456_789), "2026-04-01T06:34:17.123456");
    assert_eq!(ns_to_iso(0), "1970-01-01T00:00:00.000000");
}

#[test]
fn event_lines_replace_double_quotes() {
    assert_eq!(
        event_text("T", "setup", "Applied: \"netem\""),
        "{\"type\":\"event\",\"time\":\"T\",\"event\":\"setup\",\"detail\":\"Applied: 'netem'\"}"
    );
}

#[test]
fn a_snapshot_logs_one_line_per_subsystem() {
    let snap = Snapshot {
        timestamp_ns: 1_775_025_257_123_456_789,
        capture_latency_ns: 3210,
        cpu: vec![CpuSample { core_id: 2, freq_mhz: 3600, instructions: 7, cycles: 9, cache_misses: 1, usage_centipct: 1234 }],
        mem: MemSample { total_bytes: 100, available_bytes: 40, used_bytes: 60, cache_bytes: 5, swap_used_bytes: 0 },
        net: vec![NetSample { iface: "veth-srv".to_owned(), ..Default::default() }],
        disk: vec![DiskSample { device: "nvme0n1".to_owned(), ..Default::default() }, DiskSample::default()],
    };
    let lines = snapshot_lines(&snap, &vec!["12.3400".to_owned()]);
    assert_eq!(lines.len(), 1 + 1 + 1 + 1 + 2);
    assert_eq!(lines[0], "{\"type\":\"latency\",\"time\":\"2026-04-01T06:34:17.123456\",\"capture_ns\":3210}");
    assert!(lines[1].starts_with("{\"type\":\"cpu\",\"time\":\"2026-04-01T06:34:17.123456\",\"core\":2,\"freq_mhz\":3600,"));
    assert!(lines[1].ends_with(",\"usage_pct\":12.3400}"));
    assert!(lines[2].starts_with("{\"type\":\"mem\""));
    assert!(lines[3].contains("\"iface\":\"veth-srv\""));
    assert!(lines[4].contains("\"dev\":\"nvme0n1\""));
}
