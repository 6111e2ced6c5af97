//! The NDJSON metric log: one JSON object per line, one line per
//! subsystem per tick, plus free-form events.
//!
//!   {"type":"latency","time":"2026-04-01T06:34:17.123456","capture_ns":<n>}
//!   {"type":"cpu",    "time":"...","core":<n>,...,"usage_pct":<x>}
//!   {"type":"mem",    "time":"...","total_bytes":<n>,...}
//!   {"type":"net",    "time":"...","iface":"<name>",...}
//!   {"type":"disk",   "time":"...","dev":"<name>",...}
//!   {"type":"event",  "time":"...","event":"<type>","detail":"<msg>"}
//!
//! Writing the lines to `/var/log/ubenchmon/metrics_<ISO>.jsonl` is the
//! caller's part.
use vstd::prelude::*;
use crate::calendar::{chrono_utc_text, iso_micros_pattern, utc_text};
use crate::system::{CpuSample, DiskSample, MemSample, NetSample, Snapshot};
use crate::text::{
    chars_of, nat_text, one_decimal, push_char, push_i64, push_one_decimal, push_u64,
    tenths_half_even, int_text, all_digits, digits_value, matches_at, starts_with,
};
use crate::roundtrip::lemma_nat_text;

verus! {

pub open spec fn views(v: Seq<String>) -> Seq<Seq<char>> {
    v.map_values(|s: String| s@)
}

// ------------------------------------------------------------------ //
//  Sizes                                                              //
// ------------------------------------------------------------------ //

/// A byte count for people: bytes below 1 KiB, then KiB, then MiB, with
/// one decimal.
pub open spec fn size_text(b: nat) -> Seq<char> {
    if b < 1024 {
        nat_text(b) + " B"@
    } else if b < 1_048_576 {
        one_decimal(tenths_half_even(b, 1024)) + " KB"@
    } else {
        one_decimal(tenths_half_even(b, 1_048_576)) + " MB"@
    }
}

pub fn fmt_size(bytes: u64) -> (r: String)
    ensures
        r@ == size_text(bytes as nat),
{
    let mut s = String::new();
    if bytes < 1024 {
        push_u64(&mut s, bytes);
        s.append(" B");
    } else if bytes < 1_048_576 {
        push_one_decimal(&mut s, bytes, 1024);
        s.append(" KB");
    } else {
        push_one_decimal(&mut s, bytes, 1_048_576);
        s.append(" MB");
    }
    s
}

// ------------------------------------------------------------------ //
//  Times                                                              //
// ------------------------------------------------------------------ //

/// The log time of a snapshot taken `ns` nanoseconds after the epoch:
/// whole seconds and microseconds, in UTC; the epoch itself when chrono
/// cannot render the instant.
pub open spec fn iso_of_ns(ns: u64) -> Seq<char> {
    let secs = (ns / 1_000_000_000) as i64;
    let nsecs = ((ns % 1_000_000_000) / 1000 * 1000) as u32;
    match chrono_utc_text(secs, nsecs, iso_micros_pattern()) {
        Some(t) => t,
        None => match chrono_utc_text(0, 0, iso_micros_pattern()) {
            Some(t) => t,
            None => Seq::empty(),
        },
    }
}

/// Converts a nanosecond timestamp to ISO 8601 with microseconds.
pub fn ns_to_iso(ns: u64) -> (r: String)
    ensures
        r@ == iso_of_ns(ns),
{
    let secs: i64 = (ns / 1_000_000_000) as i64;
    let micros: u32 = ((ns % 1_000_000_000) / 1000) as u32;
    match utc_text(secs, micros * 1000, "%Y-%m-%dT%H:%M:%S%.6f") {
        Some(t) => t,
        None => match utc_text(0, 0, "%Y-%m-%dT%H:%M:%S%.6f") {
            Some(t) => t,
            None => String::new(),
        },
    }
}

// ------------------------------------------------------------------ //
//  Lines                                                              //
// ------------------------------------------------------------------ //

pub open spec fn latency_line(time: Seq<char>, capture_ns: u64) -> Seq<char> {
    "{\"type\":\"latency\",\"time\":\""@ + time + "\",\"capture_ns\":"@ + nat_text(
        capture_ns as nat,
    ) + "}"@
}

pub open spec fn cpu_line(time: Seq<char>, c: CpuSample, usage: Seq<char>) -> Seq<char> {
    "{\"type\":\"cpu\",\"time\":\""@ + time + "\",\"core\":"@ + int_text(c.core_id as int)
        + ",\"freq_mhz\":"@ + nat_text(c.freq_mhz as nat) + ",\"cycles\":"@ + nat_text(
        c.cycles as nat,
    ) + ",\"instructions\":"@ + nat_text(c.instructions as nat) + ",\"cache_misses\":"@
        + nat_text(c.cache_misses as nat) + ",\"usage_pct\":"@ + usage + "}"@
}

pub open spec fn mem_line(time: Seq<char>, m: MemSample) -> Seq<char> {
    "{\"type\":\"mem\",\"time\":\""@ + time + "\",\"total_bytes\":"@ + nat_text(
        m.total_bytes as nat,
    ) + ",\"used_bytes\":"@ + nat_text(m.used_bytes as nat) + ",\"available_bytes\":"@
        + nat_text(m.available_bytes as nat) + ",\"cache_bytes\":"@ + nat_text(
        m.cache_bytes as nat,
    ) + ",\"swap_used_bytes\":"@ + nat_text(m.swap_used_bytes as nat) + "}"@
}

pub open spec fn net_line(time: Seq<char>, n: NetSample) -> Seq<char> {
    "{\"type\":\"net\",\"time\":\""@ + time + "\",\"iface\":\""@ + n.iface@ + "\",\"rx_bytes\":"@
        + nat_text(n.rx_bytes as nat) + ",\"tx_bytes\":"@ + nat_text(n.tx_bytes as nat)
        + ",\"rx_pkts\":"@ + nat_text(n.rx_packets as nat) + ",\"tx_pkts\":"@ + nat_text(
        n.tx_packets as nat,
    ) + ",\"rx_drop\":"@ + nat_text(n.rx_dropped as nat) + ",\"tx_drop\":"@ + nat_text(
        n.tx_dropped as nat,
    ) + ",\"rx_err\":"@ + nat_text(n.rx_errors as nat) + ",\"tx_err\":"@ + nat_text(
        n.tx_errors as nat,
    ) + "}"@
}

pub open spec fn disk_line(time: Seq<char>, d: DiskSample) -> Seq<char> {
    "{\"type\":\"disk\",\"time\":\""@ + time + "\",\"dev\":\""@ + d.device@ + "\",\"reads\":"@
        + nat_text(d.reads_completed as nat) + ",\"writes\":"@ + nat_text(
        d.writes_completed as nat,
    ) + ",\"read_bytes\":"@ + nat_text(d.read_bytes as nat) + ",\"write_bytes\":"@ + nat_text(
        d.write_bytes as nat,
    ) + ",\"io_in_progress\":"@ + nat_text(d.io_in_progress as nat) + ",\"io_time_ms\":"@
        + nat_text(d.io_time_ms as nat) + "}"@
}

/// `detail` with every double quote replaced by a single quote.
pub open spec fn unquote(detail: Seq<char>) -> Seq<char> {
    detail.map_values(|c: char| if c == '"' { '\'' } else { c })
}

pub open spec fn event_line(time: Seq<char>, event: Seq<char>, detail: Seq<char>) -> Seq<char> {
    "{\"type\":\"event\",\"time\":\""@ + time + "\",\"event\":\""@ + event + "\",\"detail\":\""@
        + unquote(detail) + "\"}"@
}

/// All lines logged for one snapshot, in order: latency, every core,
/// memory, every interface, every disk. `usage` holds each core's usage
/// already rendered with four decimals.
pub open spec fn snapshot_log(snap: Snapshot, usage: Seq<Seq<char>>) -> Seq<Seq<char>> {
    let t = iso_of_ns(snap.timestamp_ns);
    seq![latency_line(t, snap.capture_latency_ns)] + Seq::new(
        snap.cpu@.len(),
        |i: int| cpu_line(t, snap.cpu@[i], usage[i]),
    ) + seq![mem_line(t, snap.mem)] + Seq::new(
        snap.net@.len(),
        |i: int| net_line(t, snap.net@[i]),
    ) + Seq::new(snap.disk@.len(), |i: int| disk_line(t, snap.disk@[i]))
}

fn latency_text(time: &String, capture_ns: u64) -> (r: String)
    ensures
        r@ == latency_line(time@, capture_ns),
{
    let mut s = String::new();
    s.append("{\"type\":\"latency\",\"time\":\"");
    s.append(time.as_str());
    s.append("\",\"capture_ns\":");
    push_u64(&mut s, capture_ns);
    s.append("}");
    assert(s@ =~= latency_line(time@, capture_ns));
    s
}

fn cpu_text(time: &String, c: &CpuSample, usage: &String) -> (r: String)
    ensures
        r@ == cpu_line(time@, *c, usage@),
{
    let mut s = String::new();
    s.append("{\"type\":\"cpu\",\"time\":\"");
    s.append(time.as_str());
    s.append("\",\"core\":");
    push_i64(&mut s, c.core_id as i64);
    s.append(",\"freq_mhz\":");
    push_u64(&mut s, c.freq_mhz as u64);
    s.append(",\"cycles\":");
    push_u64(&mut s, c.cycles);
    s.append(",\"instructions\":");
    push_u64(&mut s, c.instructions);
    s.append(",\"cache_misses\":");
    push_u64(&mut s, c.cache_misses);
    s.append(",\"usage_pct\":");
    s.append(usage.as_str());
    s.append("}");
    assert(s@ =~= cpu_line(time@, *c, usage@));
    s
}

fn mem_text(time: &String, m: &MemSample) -> (r: String)
    ensures
        r@ == mem_line(time@, *m),
{
    let mut s = String::new();
    s.append("{\"type\":\"mem\",\"time\":\"");
    s.append(time.as_str());
    s.append("\",\"total_bytes\":");
    push_u64(&mut s, m.total_bytes);
    s.append(",\"used_bytes\":");
    push_u64(&mut s, m.used_bytes);
    s.append(",\"available_bytes\":");
    push_u64(&mut s, m.available_bytes);
    s.append(",\"cache_bytes\":");
    push_u64(&mut s, m.cache_bytes);
    s.append(",\"swap_used_bytes\":");
    push_u64(&mut s, m.swap_used_bytes);
    s.append("}");
    assert(s@ =~= mem_line(time@, *m));
    s
}

fn net_text(time: &String, n: &NetSample) -> (r: String)
    ensures
        r@ == net_line(time@, *n),
{
    let mut s = String::new();
    s.append("{\"type\":\"net\",\"time\":\"");
    s.append(time.as_str());
    s.append("\",\"iface\":\"");
    s.append(n.iface.as_str());
    s.append("\",\"rx_bytes\":");
    push_u64(&mut s, n.rx_bytes);
    s.append(",\"tx_bytes\":");
    push_u64(&mut s, n.tx_bytes);
    s.append(",\"rx_pkts\":");
    push_u64(&mut s, n.rx_packets);
    s.append(",\"tx_pkts\":");
    push_u64(&mut s, n.tx_packets);
    s.append(",\"rx_drop\":");
    push_u64(&mut s, n.rx_dropped);
    s.append(",\"tx_drop\":");
    push_u64(&mut s, n.tx_dropped);
    s.append(",\"rx_err\":");
    push_u64(&mut s, n.rx_errors);
    s.append(",\"tx_err\":");
    push_u64(&mut s, n.tx_errors);
    s.append("}");
    assert(s@ =~= net_line(time@, *n));
    s
}

fn disk_text(time: &String, d: &DiskSample) -> (r: String)
    ensures
        r@ == disk_line(time@, *d),
{
    let mut s = String::new();
    s.append("{\"type\":\"disk\",\"time\":\"");
    s.append(time.as_str());
    s.append("\",\"dev\":\"");
    s.append(d.device.as_str());
    s.append("\",\"reads\":");
    push_u64(&mut s, d.reads_completed);
    s.append(",\"writes\":");
    push_u64(&mut s, d.writes_completed);
    s.append(",\"read_bytes\":");
    push_u64(&mut s, d.read_bytes);
    s.append(",\"write_bytes\":");
    push_u64(&mut s, d.write_bytes);
    s.append(",\"io_in_progress\":");
    push_u64(&mut s, d.io_in_progress);
    s.append(",\"io_time_ms\":");
    push_u64(&mut s, d.io_time_ms);
    s.append("}");
    assert(s@ =~= disk_line(time@, *d));
    s
}

/// The lines that log one snapshot. `usage[i]` is core `i`'s usage
/// percentage rendered with four decimals.
pub fn snapshot_lines(snap: &Snapshot, usage: &Vec<String>) -> (r: Vec<String>)
    requires
        usage@.len() == snap.cpu@.len(),
    ensures
        views(r@) == snapshot_log(*snap, views(usage@)),
{
    let t = ns_to_iso(snap.timestamp_ns);
    let ghost tv = t@;
    let ghost uv = views(usage@);
    let mut out: Vec<String> = Vec::new();
    out.push(latency_text(&t, snap.capture_latency_ns));
    let ghost head = seq![latency_line(tv, snap.capture_latency_ns)];
    assert(views(out@) =~= head);
    let ghost cpu_part = Seq::new(snap.cpu@.len(), |i: int| cpu_line(tv, snap.cpu@[i], uv[i]));
    let mut i: usize = 0;
    while i < snap.cpu.len()
        invariant
            i <= snap.cpu@.len() == usage@.len(),
            tv == t@,
            uv == views(usage@),
            cpu_part == Seq::new(snap.cpu@.len(), |i: int| cpu_line(tv, snap.cpu@[i], uv[i])),
            views(out@) == head + cpu_part.take(i as int),
        decreases snap.cpu@.len() - i,
    {
        let line = cpu_text(&t, &snap.cpu[i], &usage[i]);
        let ghost prev = out@;
        assert(uv[i as int] == usage@[i as int]@);
        assert(line@ == cpu_part[i as int]);
        out.push(line);
        assert(views(out@) =~= views(prev).push(cpu_part[i as int]));
        assert(cpu_part.take(i + 1) =~= cpu_part.take(i as int).push(cpu_part[i as int]));
        assert(views(out@) =~= head + cpu_part.take(i + 1));
        i = i + 1;
    }
    assert(cpu_part.take(i as int) =~= cpu_part);
    out.push(mem_text(&t, &snap.mem));
    let ghost mid = head + cpu_part + seq![mem_line(tv, snap.mem)];
    assert(views(out@) =~= mid);
    let ghost net_part = Seq::new(snap.net@.len(), |i: int| net_line(tv, snap.net@[i]));
    let mut j: usize = 0;
    while j < snap.net.len()
        invariant
            j <= snap.net@.len(),
            tv == t@,
            net_part == Seq::new(snap.net@.len(), |i: int| net_line(tv, snap.net@[i])),
            views(out@) == mid + net_part.take(j as int),
        decreases snap.net@.len() - j,
    {
        let line = net_text(&t, &snap.net[j]);
        let ghost prev = out@;
        assert(line@ == net_part[j as int]);
        out.push(line);
        assert(views(out@) =~= views(prev).push(net_part[j as int]));
        assert(net_part.take(j + 1) =~= net_part.take(j as int).push(net_part[j as int]));
        assert(views(out@) =~= mid + net_part.take(j + 1));
        j = j + 1;
    }
    assert(net_part.take(j as int) =~= net_part);
    let ghost disk_part = Seq::new(snap.disk@.len(), |i: int| disk_line(tv, snap.disk@[i]));
    let mut k: usize = 0;
    while k < snap.disk.len()
        invariant
            k <= snap.disk@.len(),
            tv == t@,
            disk_part == Seq::new(snap.disk@.len(), |i: int| disk_line(tv, snap.disk@[i])),
            views(out@) == mid + net_part + disk_part.take(k as int),
        decreases snap.disk@.len() - k,
    {
        let line = disk_text(&t, &snap.disk[k]);
        let ghost prev = out@;
        assert(line@ == disk_part[k as int]);
        out.push(line);
        assert(views(out@) =~= views(prev).push(disk_part[k as int]));
        assert(disk_part.take(k + 1) =~= disk_part.take(k as int).push(disk_part[k as int]));
        assert(views(out@) =~= mid + net_part + disk_part.take(k + 1));
        k = k + 1;
    }
    assert(disk_part.take(k as int) =~= disk_part);
    assert(views(out@) =~= snapshot_log(*snap, uv));
    out
}

/// The line that logs a free-form event at `time`; double quotes in the
/// detail become single quotes.
pub fn event_text(time: &str, event_type: &str, detail: &str) -> (r: String)
    ensures
        r@ == event_line(time@, event_type@, detail@),
{
    let d = chars_of(detail);
    let mut s = String::new();
    s.append("{\"type\":\"event\",\"time\":\"");
    s.append(time);
    s.append("\",\"event\":\"");
    s.append(event_type);
    s.append("\",\"detail\":\"");
    let ghost before = s@;
    let mut i: usize = 0;
    while i < d.len()
        invariant
            i <= d@.len(),
            d@ == detail@,
            s@ == before + unquote(d@).take(i as int),
        decreases d@.len() - i,
    {
        let c = d[i];
        if c == '"' {
            push_char(&mut s, '\'');
        } else {
            push_char(&mut s, c);
        }
        assert(unquote(d@).take(i + 1) =~= unquote(d@).take(i as int).push(unquote(d@)[i as int]));
        i = i + 1;
    }
    assert(unquote(d@).take(i as int) =~= unquote(d@));
    s.append("\"}");
    assert(s@ =~= event_line(time@, event_type@, detail@));
    s
}

/// A snapshot is logged as one line per subsystem: latency, each core,
/// memory, each interface and each disk, every line one JSON object.
pub proof fn lemma_snapshot_log_lines(snap: Snapshot, usage: Seq<Seq<char>>)
    ensures
        snapshot_log(snap, usage).len() == 2 + snap.cpu@.len() + snap.net@.len() + snap.disk@.len(),
        forall|i: int|
            0 <= i < snapshot_log(snap, usage).len() ==> crate::text::starts_with(
                #[trigger] snapshot_log(snap, usage)[i],
                seq!['{'],
            ),
{
    let t = iso_of_ns(snap.timestamp_ns);
    let log = snapshot_log(snap, usage);
    let nc = snap.cpu@.len() as int;
    let nn = snap.net@.len() as int;
    reveal_strlit("{\"type\":\"latency\",\"time\":\"");
    reveal_strlit("{\"type\":\"cpu\",\"time\":\"");
    reveal_strlit("{\"type\":\"mem\",\"time\":\"");
    reveal_strlit("{\"type\":\"net\",\"time\":\"");
    reveal_strlit("{\"type\":\"disk\",\"time\":\"");
    assert forall|i: int| 0 <= i < log.len() implies crate::text::starts_with(#[trigger] log[i], seq!['{']) by {
        let l = log[i];
        if i == 0 {
            assert(l == latency_line(t, snap.capture_latency_ns));
        } else if i < 1 + nc {
            assert(l == cpu_line(t, snap.cpu@[i - 1], usage[i - 1]));
        } else if i == 1 + nc {
            assert(l == mem_line(t, snap.mem));
        } else if i < 2 + nc + nn {
            assert(l == net_line(t, snap.net@[i - 2 - nc]));
        } else {
            assert(l == disk_line(t, snap.disk@[i - 2 - nc - nn]));
        }
        assert(l[0] == '{');
        assert(l.take(1) =~= seq!['{']);
    }
}

/// In `line`, `needle` stands at `a` and is followed by a run of digits,
/// ending at `b` with a comma or a closing brace, that reads as `value`.
pub open spec fn number_at(line: Seq<char>, needle: Seq<char>, a: int, b: int, value: nat) -> bool {
    &&& matches_at(line, needle, a)
    &&& a + needle.len() < b < line.len()
    &&& all_digits(line.subrange(a + needle.len(), b))
    &&& (line[b] == ',' || line[b] == '}')
    &&& digits_value(line.subrange(a + needle.len(), b)) == value
}

/// The number that follows `needle` somewhere in `line` reads as `value`.
pub open spec fn has_number(line: Seq<char>, needle: Seq<char>, value: nat) -> bool {
    exists|a: int, b: int| #[trigger] number_at(line, needle, a, b, value)
}

/// A line that starts with `x + y` starts with `x`.
proof fn lemma_starts_with_front(line: Seq<char>, x: Seq<char>, y: Seq<char>)
    requires
        starts_with(line, x + y),
    ensures
        starts_with(line, x),
{
    assert forall|i: int| 0 <= i < x.len() implies line.take(x.len() as int)[i] == x[i] by {
        assert(line.take((x + y).len() as int)[i] == (x + y)[i]);
    }
    assert(line.take(x.len() as int) =~= x);
}

/// A line that starts with `pre + lit + d + next`, where `lit` ends with
/// `needle`, `d` is the decimal text of `v` and `next` starts with a comma
/// or a closing brace, holds `v` after `needle`.
proof fn lemma_number_in(line: Seq<char>, pre: Seq<char>, lit: Seq<char>, needle: Seq<char>, v: nat, next: Seq<char>)
    requires
        needle.len() <= lit.len(),
        lit.subrange(lit.len() - needle.len(), lit.len() as int) == needle,
        next.len() > 0,
        next[0] == ',' || next[0] == '}',
        starts_with(line, pre + lit + nat_text(v) + next),
    ensures
        number_at(
            line,
            needle,
            (pre + lit).len() - needle.len(),
            ((pre + lit).len() + nat_text(v).len()) as int,
            v,
        ),
{
    lemma_nat_text(v);
    let d = nat_text(v);
    let whole = pre + lit + d + next;
    let a = (pre + lit).len() - needle.len();
    let k = ((pre + lit).len() + d.len()) as int;
    assert forall|i: int| 0 <= i < whole.len() implies line[i] == whole[i] by {
        assert(line.take(whole.len() as int)[i] == whole[i]);
    }
    assert forall|i: int| 0 <= i < needle.len() implies line[a + i] == needle[i] by {
        assert(whole[a + i] == lit[lit.len() - needle.len() + i]);
        assert(lit.subrange(lit.len() - needle.len(), lit.len() as int)[i] == lit[lit.len() - needle.len() + i]);
    }
    assert(line.subrange(a, a + needle.len()) =~= needle);
    assert forall|i: int| 0 <= i < d.len() implies line[(pre + lit).len() + i] == d[i] by {
        assert(whole[(pre + lit).len() + i] == d[i]);
    }
    assert(line.subrange((pre + lit).len() as int, k) =~= d);
    assert(line[k] == whole[k]);
}

/// Every logged interface line carries each counter of the interface after
/// its own key: received bytes after `"rx_bytes":`, transmitted bytes after
/// `"tx_bytes":`, and so on for packets, drops and errors.
#[verifier::spinoff_prover]
pub proof fn lemma_net_line_counts(snap: Snapshot, usage: Seq<Seq<char>>, j: int)
    requires
        0 <= j < snap.net@.len(),
    ensures
        has_number(snapshot_log(snap, usage)[2 + snap.cpu@.len() + j], "\"rx_bytes\":"@, snap.net@[j].rx_bytes as nat),
        has_number(snapshot_log(snap, usage)[2 + snap.cpu@.len() + j], "\"tx_bytes\":"@, snap.net@[j].tx_bytes as nat),
        has_number(snapshot_log(snap, usage)[2 + snap.cpu@.len() + j], "\"rx_pkts\":"@, snap.net@[j].rx_packets as nat),
        has_number(snapshot_log(snap, usage)[2 + snap.cpu@.len() + j], "\"tx_pkts\":"@, snap.net@[j].tx_packets as nat),
        has_number(snapshot_log(snap, usage)[2 + snap.cpu@.len() + j], "\"rx_drop\":"@, snap.net@[j].rx_dropped as nat),
        has_number(snapshot_log(snap, usage)[2 + snap.cpu@.len() + j], "\"tx_drop\":"@, snap.net@[j].tx_dropped as nat),
        has_number(snapshot_log(snap, usage)[2 + snap.cpu@.len() + j], "\"rx_err\":"@, snap.net@[j].rx_errors as nat),
        has_number(snapshot_log(snap, usage)[2 + snap.cpu@.len() + j], "\"tx_err\":"@, snap.net@[j].tx_errors as nat),
{
    let t = iso_of_ns(snap.timestamp_ns);
    let n = snap.net@[j];
    let line = snapshot_log(snap, usage)[2 + snap.cpu@.len() + j];
    assert(line == net_line(t, n));
    reveal_strlit(",\"rx_drop\":");
    reveal_strlit(",\"rx_err\":");
    reveal_strlit(",\"rx_pkts\":");
    reveal_strlit(",\"tx_bytes\":");
    reveal_strlit(",\"tx_drop\":");
    reveal_strlit(",\"tx_err\":");
    reveal_strlit(",\"tx_pkts\":");
    reveal_strlit("\",\"rx_bytes\":");
    reveal_strlit("\"rx_bytes\":");
    reveal_strlit("\"rx_drop\":");
    reveal_strlit("\"rx_err\":");
    reveal_strlit("\"rx_pkts\":");
    reveal_strlit("\"tx_bytes\":");
    reveal_strlit("\"tx_drop\":");
    reveal_strlit("\"tx_err\":");
    reveal_strlit("\"tx_pkts\":");
    reveal_strlit("}");
    let s0 = "{\"type\":\"net\",\"time\":\""@;
    let s1 = s0 + t;
    let s2 = s1 + "\",\"iface\":\""@;
    let s3 = s2 + n.iface@;
    let s4 = s3 + "\",\"rx_bytes\":"@;
    let s5 = s4 + nat_text(n.rx_bytes as nat);
    let s6 = s5 + ",\"tx_bytes\":"@;
    let s7 = s6 + nat_text(n.tx_bytes as nat);
    let s8 = s7 + ",\"rx_pkts\":"@;
    let s9 = s8 + nat_text(n.rx_packets as nat);
    let s10 = s9 + ",\"tx_pkts\":"@;
    let s11 = s10 + nat_text(n.tx_packets as nat);
    let s12 = s11 + ",\"rx_drop\":"@;
    let s13 = s12 + nat_text(n.rx_dropped as nat);
    let s14 = s13 + ",\"tx_drop\":"@;
    let s15 = s14 + nat_text(n.tx_dropped as nat);
    let s16 = s15 + ",\"rx_err\":"@;
    let s17 = s16 + nat_text(n.rx_errors as nat);
    let s18 = s17 + ",\"tx_err\":"@;
    let s19 = s18 + nat_text(n.tx_errors as nat);
    let s20 = s19 + "}"@;
    assert(line.take(s20.len() as int) =~= s20);
    lemma_starts_with_front(line, s19, "}"@);
    lemma_starts_with_front(line, s18, nat_text(n.tx_errors as nat));
    lemma_starts_with_front(line, s17, ",\"tx_err\":"@);
    lemma_starts_with_front(line, s16, nat_text(n.rx_errors as nat));
    lemma_starts_with_front(line, s15, ",\"rx_err\":"@);
    lemma_starts_with_front(line, s14, nat_text(n.tx_dropped as nat));
    lemma_starts_with_front(line, s13, ",\"tx_drop\":"@);
    lemma_starts_with_front(line, s12, nat_text(n.rx_dropped as nat));
    lemma_starts_with_front(line, s11, ",\"rx_drop\":"@);
    lemma_starts_with_front(line, s10, nat_text(n.tx_packets as nat));
    lemma_starts_with_front(line, s9, ",\"tx_pkts\":"@);
    lemma_starts_with_front(line, s8, nat_text(n.rx_packets as nat));
    lemma_starts_with_front(line, s7, ",\"rx_pkts\":"@);
    lemma_starts_with_front(line, s6, nat_text(n.tx_bytes as nat));
    lemma_starts_with_front(line, s5, ",\"tx_bytes\":"@);
    lemma_starts_with_front(line, s4, nat_text(n.rx_bytes as nat));
    lemma_starts_with_front(line, s3, "\",\"rx_bytes\":"@);
    lemma_starts_with_front(line, s2, n.iface@);
    lemma_starts_with_front(line, s1, "\",\"iface\":\""@);
    lemma_starts_with_front(line, s0, t);
    assert("\",\"rx_bytes\":"@.subrange("\",\"rx_bytes\":"@.len() - "\"rx_bytes\":"@.len(), "\",\"rx_bytes\":"@.len() as int) =~= "\"rx_bytes\":"@);
    lemma_number_in(line, s3, "\",\"rx_bytes\":"@, "\"rx_bytes\":"@, n.rx_bytes as nat, ",\"tx_bytes\":"@);
    assert(",\"tx_bytes\":"@.subrange(",\"tx_bytes\":"@.len() - "\"tx_bytes\":"@.len(), ",\"tx_bytes\":"@.len() as int) =~= "\"tx_bytes\":"@);
    lemma_number_in(line, s5, ",\"tx_bytes\":"@, "\"tx_bytes\":"@, n.tx_bytes as nat, ",\"rx_pkts\":"@);
    assert(",\"rx_pkts\":"@.subrange(",\"rx_pkts\":"@.len() - "\"rx_pkts\":"@.len(), ",\"rx_pkts\":"@.len() as int) =~= "\"rx_pkts\":"@);
    lemma_number_in(line, s7, ",\"rx_pkts\":"@, "\"rx_pkts\":"@, n.rx_packets as nat, ",\"tx_pkts\":"@);
    assert(",\"tx_pkts\":"@.subrange(",\"tx_pkts\":"@.len() - "\"tx_pkts\":"@.len(), ",\"tx_pkts\":"@.len() as int) =~= "\"tx_pkts\":"@);
    lemma_number_in(line, s9, ",\"tx_pkts\":"@, "\"tx_pkts\":"@, n.tx_packets as nat, ",\"rx_drop\":"@);
    assert(",\"rx_drop\":"@.subrange(",\"rx_drop\":"@.len() - "\"rx_drop\":"@.len(), ",\"rx_drop\":"@.len() as int) =~= "\"rx_drop\":"@);
    lemma_number_in(line, s11, ",\"rx_drop\":"@, "\"rx_drop\":"@, n.rx_dropped as nat, ",\"tx_drop\":"@);
    assert(",\"tx_drop\":"@.subrange(",\"tx_drop\":"@.len() - "\"tx_drop\":"@.len(), ",\"tx_drop\":"@.len() as int) =~= "\"tx_drop\":"@);
    lemma_number_in(line, s13, ",\"tx_drop\":"@, "\"tx_drop\":"@, n.tx_dropped as nat, ",\"rx_err\":"@);
    assert(",\"rx_err\":"@.subrange(",\"rx_err\":"@.len() - "\"rx_err\":"@.len(), ",\"rx_err\":"@.len() as int) =~= "\"rx_err\":"@);
    lemma_number_in(line, s15, ",\"rx_err\":"@, "\"rx_err\":"@, n.rx_errors as nat, ",\"tx_err\":"@);
    assert(",\"tx_err\":"@.subrange(",\"tx_err\":"@.len() - "\"tx_err\":"@.len(), ",\"tx_err\":"@.len() as int) =~= "\"tx_err\":"@);
    lemma_number_in(line, s17, ",\"tx_err\":"@, "\"tx_err\":"@, n.tx_errors as nat, "}"@);
}

/// Every logged disk line carries each counter of the disk after its own
/// key.
#[verifier::spinoff_prover]
pub proof fn lemma_disk_line_counts(snap: Snapshot, usage: Seq<Seq<char>>, j: int)
    requires
        0 <= j < snap.disk@.len(),
    ensures
        has_number(snapshot_log(snap, usage)[2 + snap.cpu@.len() + snap.net@.len() + j], "\"reads\":"@, snap.disk@[j].reads_completed as nat),
        has_number(snapshot_log(snap, usage)[2 + snap.cpu@.len() + snap.net@.len() + j], "\"writes\":"@, snap.disk@[j].writes_completed as nat),
        has_number(snapshot_log(snap, usage)[2 + snap.cpu@.len() + snap.net@.len() + j], "\"read_bytes\":"@, snap.disk@[j].read_bytes as nat),
        has_number(snapshot_log(snap, usage)[2 + snap.cpu@.len() + snap.net@.len() + j], "\"write_bytes\":"@, snap.disk@[j].write_bytes as nat),
        has_number(snapshot_log(snap, usage)[2 + snap.cpu@.len() + snap.net@.len() + j], "\"io_in_progress\":"@, snap.disk@[j].io_in_progress as nat),
        has_number(snapshot_log(snap, usage)[2 + snap.cpu@.len() + snap.net@.len() + j], "\"io_time_ms\":"@, snap.disk@[j].io_time_ms as nat),
{
    let t = iso_of_ns(snap.timestamp_ns);
    let d = snap.disk@[j];
    let line = snapshot_log(snap, usage)[2 + snap.cpu@.len() + snap.net@.len() + j];
    assert(line == disk_line(t, d));
    reveal_strlit(",\"io_in_progress\":");
    reveal_strlit(",\"io_time_ms\":");
    reveal_strlit(",\"read_bytes\":");
    reveal_strlit(",\"write_bytes\":");
    reveal_strlit(",\"writes\":");
    reveal_strlit("\",\"reads\":");
    reveal_strlit("\"io_in_progress\":");
    reveal_strlit("\"io_time_ms\":");
    reveal_strlit("\"read_bytes\":");
    reveal_strlit("\"reads\":");
    reveal_strlit("\"write_bytes\":");
    reveal_strlit("\"writes\":");
    reveal_strlit("}");
    let s0 = "{\"type\":\"disk\",\"time\":\""@;
    let s1 = s0 + t;
    let s2 = s1 + "\",\"dev\":\""@;
    let s3 = s2 + d.device@;
    let s4 = s3 + "\",\"reads\":"@;
    let s5 = s4 + nat_text(d.reads_completed as nat);
    let s6 = s5 + ",\"writes\":"@;
    let s7 = s6 + nat_text(d.writes_completed as nat);
    let s8 = s7 + ",\"read_bytes\":"@;
    let s9 = s8 + nat_text(d.read_bytes as nat);
    let s10 = s9 + ",\"write_bytes\":"@;
    let s11 = s10 + nat_text(d.write_bytes as nat);
    let s12 = s11 + ",\"io_in_progress\":"@;
    let s13 = s12 + nat_text(d.io_in_progress as nat);
    let s14 = s13 + ",\"io_time_ms\":"@;
    let s15 = s14 + nat_text(d.io_time_ms as nat);
    let s16 = s15 + "}"@;
    assert(line.take(s16.len() as int) =~= s16);
    lemma_starts_with_front(line, s15, "}"@);
    lemma_starts_with_front(line, s14, nat_text(d.io_time_ms as nat));
    lemma_starts_with_front(line, s13, ",\"io_time_ms\":"@);
    lemma_starts_with_front(line, s12, nat_text(d.io_in_progress as nat));
    lemma_starts_with_front(line, s11, ",\"io_in_progress\":"@);
    lemma_starts_with_front(line, s10, nat_text(d.write_bytes as nat));
    lemma_starts_with_front(line, s9, ",\"write_bytes\":"@);
    lemma_starts_with_front(line, s8, nat_text(d.read_bytes as nat));
    lemma_starts_with_front(line, s7, ",\"read_bytes\":"@);
    lemma_starts_with_front(line, s6, nat_text(d.writes_completed as nat));
    lemma_starts_with_front(line, s5, ",\"writes\":"@);
    lemma_starts_with_front(line, s4, nat_text(d.reads_completed as nat));
    lemma_starts_with_front(line, s3, "\",\"reads\":"@);
    lemma_starts_with_front(line, s2, d.device@);
    lemma_starts_with_front(line, s1, "\",\"dev\":\""@);
    lemma_starts_with_front(line, s0, t);
    assert("\",\"reads\":"@.subrange("\",\"reads\":"@.len() - "\"reads\":"@.len(), "\",\"reads\":"@.len() as int) =~= "\"reads\":"@);
    lemma_number_in(line, s3, "\",\"reads\":"@, "\"reads\":"@, d.reads_completed as nat, ",\"writes\":"@);
    assert(",\"writes\":"@.subrange(",\"writes\":"@.len() - "\"writes\":"@.len(), ",\"writes\":"@.len() as int) =~= "\"writes\":"@);
    lemma_number_in(line, s5, ",\"writes\":"@, "\"writes\":"@, d.writes_completed as nat, ",\"read_bytes\":"@);
    assert(",\"read_bytes\":"@.subrange(",\"read_bytes\":"@.len() - "\"read_bytes\":"@.len(), ",\"read_bytes\":"@.len() as int) =~= "\"read_bytes\":"@);
    lemma_number_in(line, s7, ",\"read_bytes\":"@, "\"read_bytes\":"@, d.read_bytes as nat, ",\"write_bytes\":"@);
    assert(",\"write_bytes\":"@.subrange(",\"write_bytes\":"@.len() - "\"write_bytes\":"@.len(), ",\"write_bytes\":"@.len() as int) =~= "\"write_bytes\":"@);
    lemma_number_in(line, s9, ",\"write_bytes\":"@, "\"write_bytes\":"@, d.write_bytes as nat, ",\"io_in_progress\":"@);
    assert(",\"io_in_progress\":"@.subrange(",\"io_in_progress\":"@.len() - "\"io_in_progress\":"@.len(), ",\"io_in_progress\":"@.len() as int) =~= "\"io_in_progress\":"@);
    lemma_number_in(line, s11, ",\"io_in_progress\":"@, "\"io_in_progress\":"@, d.io_in_progress as nat, ",\"io_time_ms\":"@);
    assert(",\"io_time_ms\":"@.subrange(",\"io_time_ms\":"@.len() - "\"io_time_ms\":"@.len(), ",\"io_time_ms\":"@.len() as int) =~= "\"io_time_ms\":"@);
    lemma_number_in(line, s13, ",\"io_time_ms\":"@, "\"io_time_ms\":"@, d.io_time_ms as nat, "}"@);
}

/// The logged memory line carries each memory figure after its own key.
#[verifier::spinoff_prover]
pub proof fn lemma_mem_line_counts(snap: Snapshot, usage: Seq<Seq<char>>)
    ensures
        has_number(snapshot_log(snap, usage)[snap.cpu@.len() + 1int], "\"total_bytes\":"@, snap.mem.total_bytes as nat),
        has_number(snapshot_log(snap, usage)[snap.cpu@.len() + 1int], "\"used_bytes\":"@, snap.mem.used_bytes as nat),
        has_number(snapshot_log(snap, usage)[snap.cpu@.len() + 1int], "\"available_bytes\":"@, snap.mem.available_bytes as nat),
        has_number(snapshot_log(snap, usage)[snap.cpu@.len() + 1int], "\"cache_bytes\":"@, snap.mem.cache_bytes as nat),
        has_number(snapshot_log(snap, usage)[snap.cpu@.len() + 1int], "\"swap_used_bytes\":"@, snap.mem.swap_used_bytes as nat),
{
    let t = iso_of_ns(snap.timestamp_ns);
    let m = snap.mem;
    let line = snapshot_log(snap, usage)[snap.cpu@.len() + 1int];
    assert(line == mem_line(t, m));
    reveal_strlit(",\"available_bytes\":");
    reveal_strlit(",\"cache_bytes\":");
    reveal_strlit(",\"swap_used_bytes\":");
    reveal_strlit(",\"used_bytes\":");
    reveal_strlit("\",\"total_bytes\":");
    reveal_strlit("\"available_bytes\":");
    reveal_strlit("\"cache_bytes\":");
    reveal_strlit("\"swap_used_bytes\":");
    reveal_strlit("\"total_bytes\":");
    reveal_strlit("\"used_bytes\":");
    reveal_strlit("}");
    let s0 = "{\"type\":\"mem\",\"time\":\""@;
    let s1 = s0 + t;
    let s2 = s1 + "\",\"total_bytes\":"@;
    let s3 = s2 + nat_text(m.total_bytes as nat);
    let s4 = s3 + ",\"used_bytes\":"@;
    let s5 = s4 + nat_text(m.used_bytes as nat);
    let s6 = s5 + ",\"available_bytes\":"@;
    let s7 = s6 + nat_text(m.available_bytes as nat);
    let s8 = s7 + ",\"cache_bytes\":"@;
    let s9 = s8 + nat_text(m.cache_bytes as nat);
    let s10 = s9 + ",\"swap_used_bytes\":"@;
    let s11 = s10 + nat_text(m.swap_used_bytes as nat);
    let s12 = s11 + "}"@;
    assert(line.take(s12.len() as int) =~= s12);
    lemma_starts_with_front(line, s11, "}"@);
    lemma_starts_with_front(line, s10, nat_text(m.swap_used_bytes as nat));
    lemma_starts_with_front(line, s9, ",\"swap_used_bytes\":"@);
    lemma_starts_with_front(line, s8, nat_text(m.cache_bytes as nat));
    lemma_starts_with_front(line, s7, ",\"cache_bytes\":"@);
    lemma_starts_with_front(line, s6, nat_text(m.available_bytes as nat));
    lemma_starts_with_front(line, s5, ",\"available_bytes\":"@);
    lemma_starts_with_front(line, s4, nat_text(m.used_bytes as nat));
    lemma_starts_with_front(line, s3, ",\"used_bytes\":"@);
    lemma_starts_with_front(line, s2, nat_text(m.total_bytes as nat));
    lemma_starts_with_front(line, s1, "\",\"total_bytes\":"@);
    lemma_starts_with_front(line, s0, t);
    assert("\",\"total_bytes\":"@.subrange("\",\"total_bytes\":"@.len() - "\"total_bytes\":"@.len(), "\",\"total_bytes\":"@.len() as int) =~= "\"total_bytes\":"@);
    lemma_number_in(line, s1, "\",\"total_bytes\":"@, "\"total_bytes\":"@, m.total_bytes as nat, ",\"used_bytes\":"@);
    assert(",\"used_bytes\":"@.subrange(",\"used_bytes\":"@.len() - "\"used_bytes\":"@.len(), ",\"used_bytes\":"@.len() as int) =~= "\"used_bytes\":"@);
    lemma_number_in(line, s3, ",\"used_bytes\":"@, "\"used_bytes\":"@, m.used_bytes as nat, ",\"available_bytes\":"@);
    assert(",\"available_bytes\":"@.subrange(",\"available_bytes\":"@.len() - "\"available_bytes\":"@.len(), ",\"available_bytes\":"@.len() as int) =~= "\"available_bytes\":"@);
    lemma_number_in(line, s5, ",\"available_bytes\":"@, "\"available_bytes\":"@, m.available_bytes as nat, ",\"cache_bytes\":"@);
    assert(",\"cache_bytes\":"@.subrange(",\"cache_bytes\":"@.len() - "\"cache_bytes\":"@.len(), ",\"cache_bytes\":"@.len() as int) =~= "\"cache_bytes\":"@);
    lemma_number_in(line, s7, ",\"cache_bytes\":"@, "\"cache_bytes\":"@, m.cache_bytes as nat, ",\"swap_used_bytes\":"@);
    assert(",\"swap_used_bytes\":"@.subrange(",\"swap_used_bytes\":"@.len() - "\"swap_used_bytes\":"@.len(), ",\"swap_used_bytes\":"@.len() as int) =~= "\"swap_used_bytes\":"@);
    lemma_number_in(line, s9, ",\"swap_used_bytes\":"@, "\"swap_used_bytes\":"@, m.swap_used_bytes as nat, "}"@);
}

/// The logged latency line carries the capture latency after
/// `"capture_ns":`.
#[verifier::spinoff_prover]
pub proof fn lemma_latency_line_count(snap: Snapshot, usage: Seq<Seq<char>>)
    ensures
        has_number(snapshot_log(snap, usage)[0], "\"capture_ns\":"@, snap.capture_latency_ns as nat),
{
    let t = iso_of_ns(snap.timestamp_ns);
    let line = snapshot_log(snap, usage)[0];
    assert(line == latency_line(t, snap.capture_latency_ns));
    reveal_strlit("\",\"capture_ns\":");
    reveal_strlit("\"capture_ns\":");
    reveal_strlit("}");
    let s0 = "{\"type\":\"latency\",\"time\":\""@;
    let s1 = s0 + t;
    let s2 = s1 + "\",\"capture_ns\":"@;
    let s3 = s2 + nat_text(snap.capture_latency_ns as nat);
    let s4 = s3 + "}"@;
    assert(line.take(s4.len() as int) =~= s4);
    lemma_starts_with_front(line, s3, "}"@);
    lemma_starts_with_front(line, s2, nat_text(snap.capture_latency_ns as nat));
    lemma_starts_with_front(line, s1, "\",\"capture_ns\":"@);
    lemma_starts_with_front(line, s0, t);
    assert("\",\"capture_ns\":"@.subrange("\",\"capture_ns\":"@.len() - "\"capture_ns\":"@.len(), "\",\"capture_ns\":"@.len() as int) =~= "\"capture_ns\":"@);
    lemma_number_in(line, s1, "\",\"capture_ns\":"@, "\"capture_ns\":"@, snap.capture_latency_ns as nat, "}"@);
}

/// Every logged core line carries each counter of the core after its own
/// key.
#[verifier::spinoff_prover]
pub proof fn lemma_cpu_line_counts(snap: Snapshot, usage: Seq<Seq<char>>, j: int)
    requires
        0 <= j < snap.cpu@.len(),
    ensures
        has_number(snapshot_log(snap, usage)[1 + j], "\"freq_mhz\":"@, snap.cpu@[j].freq_mhz as nat),
        has_number(snapshot_log(snap, usage)[1 + j], "\"cycles\":"@, snap.cpu@[j].cycles as nat),
        has_number(snapshot_log(snap, usage)[1 + j], "\"instructions\":"@, snap.cpu@[j].instructions as nat),
        has_number(snapshot_log(snap, usage)[1 + j], "\"cache_misses\":"@, snap.cpu@[j].cache_misses as nat),
{
    let t = iso_of_ns(snap.timestamp_ns);
    let c = snap.cpu@[j];
    let line = snapshot_log(snap, usage)[1 + j];
    assert(line == cpu_line(t, c, usage[j]));
    reveal_strlit(",\"cache_misses\":");
    reveal_strlit(",\"cycles\":");
    reveal_strlit(",\"freq_mhz\":");
    reveal_strlit(",\"instructions\":");
    reveal_strlit("\"cache_misses\":");
    reveal_strlit("\"cycles\":");
    reveal_strlit("\"freq_mhz\":");
    reveal_strlit("\"instructions\":");
    reveal_strlit(",\"usage_pct\":");
    reveal_strlit("}");
    let s0 = "{\"type\":\"cpu\",\"time\":\""@;
    let s1 = s0 + t;
    let s2 = s1 + "\",\"core\":"@;
    let s3 = s2 + int_text(c.core_id as int);
    let s4 = s3 + ",\"freq_mhz\":"@;
    let s5 = s4 + nat_text(c.freq_mhz as nat);
    let s6 = s5 + ",\"cycles\":"@;
    let s7 = s6 + nat_text(c.cycles as nat);
    let s8 = s7 + ",\"instructions\":"@;
    let s9 = s8 + nat_text(c.instructions as nat);
    let s10 = s9 + ",\"cache_misses\":"@;
    let s11 = s10 + nat_text(c.cache_misses as nat);
    let s12 = s11 + ",\"usage_pct\":"@;
    let s13 = s12 + usage[j];
    let s14 = s13 + "}"@;
    assert(line.take(s14.len() as int) =~= s14);
    lemma_starts_with_front(line, s13, "}"@);
    lemma_starts_with_front(line, s12, usage[j]);
    lemma_starts_with_front(line, s11, ",\"usage_pct\":"@);
    lemma_starts_with_front(line, s10, nat_text(c.cache_misses as nat));
    lemma_starts_with_front(line, s9, ",\"cache_misses\":"@);
    lemma_starts_with_front(line, s8, nat_text(c.instructions as nat));
    lemma_starts_with_front(line, s7, ",\"instructions\":"@);
    lemma_starts_with_front(line, s6, nat_text(c.cycles as nat));
    lemma_starts_with_front(line, s5, ",\"cycles\":"@);
    lemma_starts_with_front(line, s4, nat_text(c.freq_mhz as nat));
    lemma_starts_with_front(line, s3, ",\"freq_mhz\":"@);
    lemma_starts_with_front(line, s2, int_text(c.core_id as int));
    lemma_starts_with_front(line, s1, "\",\"core\":"@);
    lemma_starts_with_front(line, s0, t);
    assert(",\"freq_mhz\":"@.subrange(",\"freq_mhz\":"@.len() - "\"freq_mhz\":"@.len(), ",\"freq_mhz\":"@.len() as int) =~= "\"freq_mhz\":"@);
    lemma_number_in(line, s3, ",\"freq_mhz\":"@, "\"freq_mhz\":"@, c.freq_mhz as nat, ",\"cycles\":"@);
    assert(",\"cycles\":"@.subrange(",\"cycles\":"@.len() - "\"cycles\":"@.len(), ",\"cycles\":"@.len() as int) =~= "\"cycles\":"@);
    lemma_number_in(line, s5, ",\"cycles\":"@, "\"cycles\":"@, c.cycles as nat, ",\"instructions\":"@);
    assert(",\"instructions\":"@.subrange(",\"instructions\":"@.len() - "\"instructions\":"@.len(), ",\"instructions\":"@.len() as int) =~= "\"instructions\":"@);
    lemma_number_in(line, s7, ",\"instructions\":"@, "\"instructions\":"@, c.instructions as nat, ",\"cache_misses\":"@);
    assert(",\"cache_misses\":"@.subrange(",\"cache_misses\":"@.len() - "\"cache_misses\":"@.len(), ",\"cache_misses\":"@.len() as int) =~= "\"cache_misses\":"@);
    lemma_number_in(line, s9, ",\"cache_misses\":"@, "\"cache_misses\":"@, c.cache_misses as nat, ",\"usage_pct\":"@);
}

} // verus!
