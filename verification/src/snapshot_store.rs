//! Config snapshots: a JSON copy of the setup configuration is saved to
//! `/var/lib/ubenchmon/snapshots/<ISO>/` before every Apply, so Teardown can
//! restore any previous state.
//!
//! Directory layout:
//!   /var/lib/ubenchmon/snapshots/<ISO>/
//!       preconfig.json   — state captured before Apply
//!       config.json      — config that was Applied
//!
//! Reading the directories and files is the caller's part; this module
//! turns what was read into the list the teardown picker shows, newest
//! first, and reads the live system state into a configuration.
use vstd::prelude::*;
use crate::calendar::{chrono_parse_utc, chrono_utc_text, dir_stamp_pattern, human_utc_pattern, parse_utc_timestamp, utc_text};
use crate::config::{config_from_json, from_json, int_texts, ConfigView, SetupConfig, default_config};
use crate::text::{
    chars_of, contains, contains_in, int_text, join, lines_in, lines_of, nat_text, parse_u64_in,
    parse_u64_spec, push_u64, split_char, split_on, starts_with, starts_with_at, strip_prefixes,
    strip_prefixes_at, str_is, trim, trim_bounds, words, words_in, parse_i32_spec, parse_i32_in, push_i64,
};
use crate::config::push_joined_ints;

verus! {

pub const SNAP_DIR: &'static str = "/var/lib/ubenchmon/snapshots";

pub const ACTIVE_CONFIG: &'static str = "/var/lib/ubenchmon/active_config.json";

/// One restorable configuration, as the teardown picker lists it.
#[derive(Debug, Clone)]
pub struct ConfigSnapshot {
    /// Unix nanoseconds — used for sorting and directory name.
    pub timestamp_ns: u64,
    /// Human-readable timestamp string.
    pub timestamp_str: String,
    /// Full path to the JSON file.
    pub path: String,
    /// One-line summary of key settings.
    pub preview: String,
    /// Full config for the preview bubble.
    pub config: Option<SetupConfig>,
}

pub struct SnapshotView {
    pub timestamp_ns: u64,
    pub timestamp_str: Seq<char>,
    pub path: Seq<char>,
    pub preview: Seq<char>,
    pub config: Option<ConfigView>,
}

impl View for ConfigSnapshot {
    type V = SnapshotView;

    open spec fn view(&self) -> SnapshotView {
        SnapshotView {
            timestamp_ns: self.timestamp_ns,
            timestamp_str: self.timestamp_str@,
            path: self.path@,
            preview: self.preview@,
            config: match self.config {
                Some(c) => Some(c@),
                None => None,
            },
        }
    }
}

pub open spec fn snapshot_views(v: Seq<ConfigSnapshot>) -> Seq<SnapshotView> {
    v.map_values(|s: ConfigSnapshot| s@)
}

// ------------------------------------------------------------------ //
//  Display helpers                                                    //
// ------------------------------------------------------------------ //

pub open spec fn on_off(b: bool) -> Seq<char> {
    if b {
        "on"@
    } else {
        "off"@
    }
}

/// The one-line summary of a configuration.
pub open spec fn preview_text(c: Option<ConfigView>) -> Seq<char> {
    match c {
        None => "  (unreadable)"@,
        Some(c) => "isolcpus=["@ + join(int_texts(c.isolated_cores), ","@) + "]  swap="@ + on_off(
            !c.disable_swap,
        ) + "  nohz="@ + on_off(c.apply_nohz_full) + "  rcu="@ + on_off(c.apply_rcu_nocbs)
            + "  netem="@ + int_text(c.netem_delay_ms as int) + "ms±"@ + int_text(
            c.netem_jitter_ms as int,
        ) + "ms"@,
    }
}

fn push_on_off(s: &mut String, b: bool)
    ensures
        final(s)@ == old(s)@ + on_off(b),
{
    if b {
        s.append("on");
    } else {
        s.append("off");
    }
}

pub fn make_preview(cfg: Option<&SetupConfig>) -> (r: String)
    ensures
        r@ == preview_text(
            match cfg {
                Some(c) => Some(c@),
                None => None,
            },
        ),
{
    match cfg {
        None => "  (unreadable)".to_owned(),
        Some(c) => {
            let mut s = String::new();
            s.append("isolcpus=[");
            push_joined_ints(&mut s, &c.isolated_cores, ",");
            s.append("]  swap=");
            push_on_off(&mut s, !c.disable_swap);
            s.append("  nohz=");
            push_on_off(&mut s, c.apply_nohz_full);
            s.append("  rcu=");
            push_on_off(&mut s, c.apply_rcu_nocbs);
            s.append("  netem=");
            push_i64(&mut s, c.netem_delay_ms as i64);
            s.append("ms±");
            push_i64(&mut s, c.netem_jitter_ms as i64);
            s.append("ms");
            assert(s@ =~= preview_text(Some(c@)));
            s
        },
    }
}

/// A snapshot time for people: the UTC date and time, or the raw seconds
/// with an `s` when chrono cannot render the instant.
pub open spec fn ts_text(secs: u64) -> Seq<char> {
    match chrono_utc_text(secs as i64, 0, human_utc_pattern()) {
        Some(t) => t,
        None => nat_text(secs as nat) + "s"@,
    }
}

pub fn fmt_ts(secs: u64) -> (r: String)
    ensures
        r@ == ts_text(secs),
{
    match utc_text(secs as i64, 0, "%Y-%m-%d %H:%M:%S UTC") {
        Some(t) => t,
        None => {
            let mut s = String::new();
            push_u64(&mut s, secs);
            s.append("s");
            s
        },
    }
}

// ------------------------------------------------------------------ //
//  Listing                                                            //
// ------------------------------------------------------------------ //

/// What the caller found in one snapshot directory: its name and the
/// content of each of its two files, `None` when the file is absent (an
/// unreadable file is read as empty text).
#[derive(Debug, Clone)]
pub struct SnapshotDir {
    pub name: String,
    pub preconfig: Option<String>,
    pub config: Option<String>,
}

pub struct SnapshotDirView {
    pub name: Seq<char>,
    pub preconfig: Option<Seq<char>>,
    pub config: Option<Seq<char>>,
}

impl View for SnapshotDir {
    type V = SnapshotDirView;

    open spec fn view(&self) -> SnapshotDirView {
        SnapshotDirView {
            name: self.name@,
            preconfig: match self.preconfig {
                Some(c) => Some(c@),
                None => None,
            },
            config: match self.config {
                Some(c) => Some(c@),
                None => None,
            },
        }
    }
}

/// The time a directory name records, in Unix nanoseconds; 0 when the name
/// is not a timestamp. The seconds are multiplied as `u64`, wrapping.
pub open spec fn dir_time_ns(name: Seq<char>) -> u64 {
    match chrono_parse_utc(name, dir_stamp_pattern()) {
        Some(t) => (t as u64).wrapping_mul(1_000_000_000),
        None => 0,
    }
}

/// The listing entry for one file of a snapshot directory.
pub open spec fn snapshot_entry(
    name: Seq<char>,
    ts_ns: u64,
    file: Seq<char>,
    label: Seq<char>,
    content: Seq<char>,
) -> SnapshotView {
    SnapshotView {
        timestamp_ns: ts_ns,
        timestamp_str: ts_text(ts_ns / 1_000_000_000) + " ["@ + label + "]"@,
        path: "/var/lib/ubenchmon/snapshots/"@ + name + "/"@ + file,
        preview: preview_text(Some(config_from_json(content))),
        config: Some(config_from_json(content)),
    }
}

/// The entries of one directory: its `preconfig.json` then its
/// `config.json`, each only when present; none when the name is not a
/// timestamp.
pub open spec fn dir_entries(d: SnapshotDirView) -> Seq<SnapshotView> {
    let ts = dir_time_ns(d.name);
    if ts == 0 {
        Seq::empty()
    } else {
        (match d.preconfig {
            Some(c) => seq![snapshot_entry(d.name, ts, "preconfig.json"@, "PRE"@, c)],
            None => Seq::empty(),
        }) + (match d.config {
            Some(c) => seq![snapshot_entry(d.name, ts, "config.json"@, "CFG"@, c)],
            None => Seq::empty(),
        })
    }
}

/// The entries of all directories, in directory order.
pub open spec fn all_entries(dirs: Seq<SnapshotDirView>) -> Seq<SnapshotView>
    decreases dirs.len(),
{
    if dirs.len() == 0 {
        Seq::empty()
    } else {
        all_entries(dirs.drop_last()) + dir_entries(dirs.last())
    }
}

/// The first position in `s` whose time is older than `t`.
pub open spec fn insert_pos(s: Seq<SnapshotView>, t: u64) -> int
    decreases s.len(),
{
    if s.len() == 0 {
        0
    } else if s.last().timestamp_ns >= t {
        s.len() as int
    } else {
        insert_pos(s.drop_last(), t)
    }
}

/// `s` sorted newest first; entries with the same time keep their order.
pub open spec fn sort_newest_first(s: Seq<SnapshotView>) -> Seq<SnapshotView>
    decreases s.len(),
{
    if s.len() == 0 {
        Seq::empty()
    } else {
        let rest = sort_newest_first(s.drop_last());
        rest.insert(insert_pos(rest, s.last().timestamp_ns), s.last())
    }
}


/// Every entry is at least as new as every entry after it.
pub open spec fn newest_first(s: Seq<SnapshotView>) -> bool {
    forall|i: int, j: int| 0 <= i < j < s.len() ==> s[i].timestamp_ns >= s[j].timestamp_ns
}

/// The entries of `s` taken at time `t`, in their order in `s`.
pub open spec fn at_time(s: Seq<SnapshotView>, t: u64) -> Seq<SnapshotView> {
    s.filter(|e: SnapshotView| e.timestamp_ns == t)
}

proof fn lemma_insert_pos(s: Seq<SnapshotView>, t: u64)
    requires
        newest_first(s),
    ensures
        0 <= insert_pos(s, t) <= s.len(),
        forall|i: int| 0 <= i < insert_pos(s, t) ==> s[i].timestamp_ns >= t,
        forall|i: int| insert_pos(s, t) <= i < s.len() ==> s[i].timestamp_ns < t,
    decreases s.len(),
{
    if s.len() > 0 {
        let n = s.len() - 1;
        if s.last().timestamp_ns >= t {
            assert forall|i: int| 0 <= i < insert_pos(s, t) implies s[i].timestamp_ns >= t by {
                if i < n {
                    assert(s[i].timestamp_ns >= s[n].timestamp_ns);
                }
            }
        } else {
            let r = s.drop_last();
            assert forall|i: int, j: int| 0 <= i < j < r.len() implies r[i].timestamp_ns
                >= r[j].timestamp_ns by {
                assert(r[i] == s[i] && r[j] == s[j]);
            }
            lemma_insert_pos(r, t);
            assert forall|i: int| 0 <= i < insert_pos(s, t) implies s[i].timestamp_ns >= t by {
                assert(r[i] == s[i]);
            }
            assert forall|i: int| insert_pos(s, t) <= i < s.len() implies s[i].timestamp_ns < t by {
                if i < n {
                    assert(r[i] == s[i]);
                }
            }
        }
    }
}

proof fn lemma_at_time_add(a: Seq<SnapshotView>, b: Seq<SnapshotView>, t: u64)
    ensures
        at_time(a + b, t) == at_time(a, t) + at_time(b, t),
{
    broadcast use Seq::filter_distributes_over_add;

}

proof fn lemma_at_time_single(x: SnapshotView, t: u64)
    ensures
        at_time(seq![x], t) == (if x.timestamp_ns == t {
            seq![x]
        } else {
            Seq::<SnapshotView>::empty()
        }),
{
    reveal_with_fuel(Seq::filter, 2);
    assert(seq![x].drop_last() =~= Seq::<SnapshotView>::empty());
    assert(seq![x].last() == x);
    if x.timestamp_ns == t {
        assert(Seq::<SnapshotView>::empty().push(x) =~= seq![x]);
    }
}

proof fn lemma_at_time_none(s: Seq<SnapshotView>, t: u64)
    requires
        forall|i: int| 0 <= i < s.len() ==> s[i].timestamp_ns != t,
    ensures
        at_time(s, t) =~= Seq::<SnapshotView>::empty(),
    decreases s.len(),
{
    if s.len() > 0 {
        let r = s.drop_last();
        assert forall|i: int| 0 <= i < r.len() implies r[i].timestamp_ns != t by {
            assert(r[i] == s[i]);
        }
        lemma_at_time_none(r, t);
        assert(s =~= r + seq![s.last()]);
        lemma_at_time_add(r, seq![s.last()], t);
        lemma_at_time_single(s.last(), t);
    }
}

/// The snapshot list is newest first, and it holds exactly the entries
/// found: for every time, the entries taken at that time, in the order the
/// directories were read (PRE before CFG within a directory).
pub proof fn lemma_sort_newest_first(s: Seq<SnapshotView>)
    ensures
        newest_first(sort_newest_first(s)),
        sort_newest_first(s).len() == s.len(),
        forall|t: u64| at_time(sort_newest_first(s), t) == at_time(s, t),
    decreases s.len(),
{
    if s.len() > 0 {
        let rest = sort_newest_first(s.drop_last());
        let x = s.last();
        lemma_sort_newest_first(s.drop_last());
        lemma_insert_pos(rest, x.timestamp_ns);
        let p = insert_pos(rest, x.timestamp_ns);
        let r = rest.insert(p, x);
        assert(r == sort_newest_first(s));
        assert forall|i: int, j: int| 0 <= i < j < r.len() implies r[i].timestamp_ns
            >= r[j].timestamp_ns by {
            if j < p {
                assert(r[i] == rest[i] && r[j] == rest[j]);
            } else if j == p {
                assert(r[i] == rest[i]);
            } else if i < p {
                assert(r[i] == rest[i] && r[j] == rest[j - 1]);
            } else if i == p {
                assert(r[j] == rest[j - 1]);
            } else {
                assert(r[i] == rest[i - 1] && r[j] == rest[j - 1]);
            }
        }
        assert forall|t: u64| at_time(r, t) == at_time(s, t) by {
            let head = rest.take(p);
            let tail = rest.skip(p);
            assert(r =~= head + seq![x] + tail);
            assert(rest =~= head + tail);
            assert(s =~= s.drop_last() + seq![x]);
            lemma_at_time_add(head + seq![x], tail, t);
            lemma_at_time_add(head, seq![x], t);
            lemma_at_time_add(head, tail, t);
            lemma_at_time_add(s.drop_last(), seq![x], t);
            lemma_at_time_single(x, t);
            if x.timestamp_ns == t {
                assert forall|i: int| 0 <= i < tail.len() implies tail[i].timestamp_ns != t by {
                    assert(tail[i] == rest[p + i]);
                }
                lemma_at_time_none(tail, t);
                assert(at_time(r, t) =~= at_time(rest, t) + seq![x]);
            } else {
                assert(at_time(r, t) =~= at_time(rest, t));
            }
        }
    }
}

pub open spec fn dir_views(v: Seq<SnapshotDir>) -> Seq<SnapshotDirView> {
    v.map_values(|d: SnapshotDir| d@)
}

fn entry_of(name: &String, ts_ns: u64, file: &str, label: &str, content: &String) -> (r: ConfigSnapshot)
    requires
        file@ == "preconfig.json"@ || file@ == "config.json"@,
    ensures
        r@ == snapshot_entry(name@, ts_ns, file@, label@, content@),
{
    let mut path = String::new();
    path.append("/var/lib/ubenchmon/snapshots/");
    path.append(name.as_str());
    path.append("/");
    path.append(file);
    let config = from_json(content.as_str());
    let preview = make_preview(config.as_ref());
    let mut ts_human = fmt_ts(ts_ns / 1_000_000_000);
    ts_human.append(" [");
    ts_human.append(label);
    ts_human.append("]");
    let r = ConfigSnapshot { timestamp_ns: ts_ns, timestamp_str: ts_human, path, preview, config };
    assert(r@.path =~= snapshot_entry(name@, ts_ns, file@, label@, content@).path);
    r
}

/// Inserts `x` after every entry at least as new, keeping `out` newest first.
fn insert_newest_first(out: &mut Vec<ConfigSnapshot>, x: ConfigSnapshot)
    ensures
        snapshot_views(final(out)@) == snapshot_views(old(out)@).insert(
            insert_pos(snapshot_views(old(out)@), x.timestamp_ns),
            x@,
        ),
{
    let ghost s = snapshot_views(out@);
    let mut i = out.len();
    assert(s.take(i as int) =~= s);
    while i > 0 && out[i - 1].timestamp_ns < x.timestamp_ns
        invariant
            i <= out@.len(),
            s == snapshot_views(out@),
            insert_pos(s, x.timestamp_ns) == insert_pos(s.take(i as int), x.timestamp_ns),
        decreases i,
    {
        assert(s.take(i as int).drop_last() =~= s.take(i - 1));
        i = i - 1;
    }
    assert(insert_pos(s.take(i as int), x.timestamp_ns) == i as int) by {
        if i > 0 {
            assert(s.take(i as int).last() == s[i - 1]);
        }
    }
    let ghost xv = x@;
    out.insert(i, x);
    assert(snapshot_views(out@) =~= s.insert(i as int, xv));
}

/// The snapshots found in the given directories, newest first.
pub fn list_snapshots(dirs: &Vec<SnapshotDir>) -> (r: Vec<ConfigSnapshot>)
    ensures
        snapshot_views(r@) == sort_newest_first(all_entries(dir_views(dirs@))),
{
    let ghost dv = dir_views(dirs@);
    let mut found: Vec<ConfigSnapshot> = Vec::new();
    let mut i: usize = 0;
    while i < dirs.len()
        invariant
            i <= dirs@.len(),
            dv == dir_views(dirs@),
            snapshot_views(found@) == all_entries(dv.take(i as int)),
        decreases dirs@.len() - i,
    {
        let d = &dirs[i];
        let ghost before = snapshot_views(found@);
        let ts_ns: u64 = match parse_utc_timestamp(d.name.as_str(), "%Y-%m-%dT%H-%M-%S") {
            Some(t) => (t as u64).wrapping_mul(1_000_000_000),
            None => 0,
        };
        assert(dv.take(i + 1).drop_last() =~= dv.take(i as int));
        assert(dv.take(i + 1).last() == d@);
        if ts_ns != 0 {
            match &d.preconfig {
                Some(c) => {
                    let e = entry_of(&d.name, ts_ns, "preconfig.json", "PRE", c);
                    found.push(e);
                },
                None => {},
            }
            match &d.config {
                Some(c) => {
                    let e = entry_of(&d.name, ts_ns, "config.json", "CFG", c);
                    found.push(e);
                },
                None => {},
            }
        }
        assert(snapshot_views(found@) =~= before + dir_entries(d@));
        i = i + 1;
    }
    assert(dv.take(i as int) =~= dv);
    let ghost all = snapshot_views(found@);
    let mut out: Vec<ConfigSnapshot> = Vec::new();
    let ghost mut k: int = 0;
    assert(all.skip(0) =~= all);
    while found.len() > 0
        invariant
            0 <= k <= all.len(),
            snapshot_views(found@) == all.skip(k),
            snapshot_views(out@) == sort_newest_first(all.take(k)),
        decreases found@.len(),
    {
        let ghost before = found@;
        assert(snapshot_views(before).len() == before.len());
        assert(k < all.len());
        let x = found.remove(0);
        proof {
            assert(snapshot_views(before)[0] == before[0]@);
            assert(all.skip(k)[0] == all[k]);
            assert(x@ == all[k]);
            assert forall|t: int| 0 <= t < found@.len() implies #[trigger] snapshot_views(found@)[t]
                == all.skip(k + 1)[t] by {
                assert(found@[t] == before[t + 1]);
                assert(snapshot_views(before)[t + 1] == before[t + 1]@);
                assert(all.skip(k)[t + 1] == all.skip(k + 1)[t]);
            }
            assert(snapshot_views(found@) =~= all.skip(k + 1));
            assert(all.take(k + 1).drop_last() =~= all.take(k));
            assert(all.take(k + 1).last() == all[k]);
        }
        insert_newest_first(&mut out, x);
        proof {
            k = k + 1;
        }
    }
    assert(all.take(k) =~= all);
    out
}

// ------------------------------------------------------------------ //
//  Live system state                                                  //
// ------------------------------------------------------------------ //

/// What the caller read from the live system to build a restore point.
#[derive(Debug, Clone)]
pub struct LiveReadings {
    /// `/sys/devices/system/cpu/cpufreq/boost`, `None` when unreadable.
    pub boost: Option<String>,
    /// `/proc/cmdline` (empty when unreadable).
    pub cmdline: String,
    /// `/proc/swaps` (empty when unreadable).
    pub swaps: String,
    /// What `ip netns list` printed.
    pub netns_list: String,
    /// The active configuration, when one is saved.
    pub active: Option<SetupConfig>,
    /// `/proc/sys/kernel/randomize_va_space`.
    pub randomize_va_space: String,
    /// `/proc/sys/net/core/rmem_max`.
    pub rmem_max: String,
    /// What `systemctl is-active systemd-timesyncd` printed.
    pub timesyncd_state: String,
}

/// The first word that starts with `p`.
pub open spec fn first_with_prefix(ws: Seq<Seq<char>>, p: Seq<char>) -> Option<Seq<char>>
    decreases ws.len(),
{
    if ws.len() == 0 {
        None
    } else if starts_with(ws[0], p) {
        Some(ws[0])
    } else {
        first_with_prefix(ws.drop_first(), p)
    }
}

pub open spec fn any_with_prefix(ws: Seq<Seq<char>>, p: Seq<char>) -> bool {
    exists|i: int| 0 <= i < ws.len() && starts_with(#[trigger] ws[i], p)
}

/// The integers among comma-separated pieces, as `parse` reads each piece
/// untrimmed; other pieces are skipped.
pub open spec fn int_pieces(pieces: Seq<Seq<char>>) -> Seq<i32>
    decreases pieces.len(),
{
    if pieces.len() == 0 {
        Seq::empty()
    } else {
        int_pieces(pieces.drop_last()) + match parse_i32_spec(pieces.last()) {
            Some(x) => seq![x],
            None => Seq::empty(),
        }
    }
}

/// The isolated cores that a kernel command line sets with `isolcpus=`.
pub open spec fn cmdline_isolcpus(cmdline: Seq<char>) -> Seq<i32> {
    match first_with_prefix(words(cmdline), "isolcpus="@) {
        Some(w) => int_pieces(split_on(strip_prefixes(w, "isolcpus="@), ',')),
        None => Seq::empty(),
    }
}

/// The configuration that describes the live system: read from the
/// readings where the system says, the active configuration's process
/// pinning, and the defaults elsewhere. Caches are never dropped in it.
pub open spec fn live_config(
    boost: Option<Seq<char>>,
    cmdline: Seq<char>,
    swaps: Seq<char>,
    netns_list: Seq<char>,
    active: Option<ConfigView>,
    aslr: Seq<char>,
    rmem: Seq<char>,
    timesyncd: Seq<char>,
) -> ConfigView {
    let d = default_config();
    ConfigView {
        isolated_cores: cmdline_isolcpus(cmdline),
        disable_frequency_boost: trim(
            match boost {
                Some(b) => b,
                None => "1"@,
            },
        ) == "0"@,
        apply_nohz_full: any_with_prefix(words(cmdline), "nohz_full="@),
        apply_rcu_nocbs: any_with_prefix(words(cmdline), "rcu_nocbs="@),
        disable_swap: lines_of(swaps).len() <= 1,
        ns_server: if contains(netns_list, "ns_server"@) {
            "ns_server"@
        } else {
            Seq::empty()
        },
        ns_client: if contains(netns_list, "ns_client"@) {
            "ns_client"@
        } else {
            Seq::empty()
        },
        server_cores: match active {
            Some(a) => a.server_cores,
            None => Seq::empty(),
        },
        client_cores: match active {
            Some(a) => a.client_cores,
            None => Seq::empty(),
        },
        rt_priority: match active {
            Some(a) => a.rt_priority,
            None => 0,
        },
        disable_aslr: trim(aslr) == "0"@,
        tune_net_buffers: match parse_u64_spec(trim(rmem)) {
            Some(v) => v,
            None => 0,
        } >= 26_000_000,
        drop_caches: false,
        stop_timesyncd: trim(timesyncd) != "active"@,
        ..d
    }
}

fn trimmed_is(s: &String, lit: &str) -> (b: bool)
    ensures
        b == (trim(s@) == lit@),
{
    let v = chars_of(s.as_str());
    let (a, e) = trim_bounds(&v, 0, v.len());
    assert(v@.subrange(0, v@.len() as int) =~= s@);
    let w = crate::text::slice_of(&v, a, e);
    let l = chars_of(lit);
    crate::text::chars_eq(&w, &l)
}

/// Reads the live system state into a configuration, so that it can be
/// saved as a restore point before Apply runs.
pub fn capture_current_state(readings: LiveReadings) -> (r: SetupConfig)
    ensures
        r@ == live_config(
            match readings.boost {
                Some(b) => Some(b@),
                None => None,
            },
            readings.cmdline@,
            readings.swaps@,
            readings.netns_list@,
            match readings.active {
                Some(a) => Some(a@),
                None => None,
            },
            readings.randomize_va_space@,
            readings.rmem_max@,
            readings.timesyncd_state@,
        ),
{
    let mut cfg = SetupConfig::default();
    cfg.disable_frequency_boost = match &readings.boost {
        Some(b) => trimmed_is(b, "0"),
        None => {
            let one = "1".to_owned();
            trimmed_is(&one, "0")
        },
    };
    let cmd = chars_of(readings.cmdline.as_str());
    let ws = words_in(&cmd);
    let ghost wv = words(cmd@);
    let iso_prefix = chars_of("isolcpus=");
    let nohz_prefix = chars_of("nohz_full=");
    let rcu_prefix = chars_of("rcu_nocbs=");
    // isolcpus=, nohz_full=, rcu_nocbs= on the kernel command line
    let mut iso: Option<usize> = None;
    assert(wv.skip(0) =~= wv);
    let mut nohz = false;
    let mut rcu = false;
    let mut i: usize = 0;
    while i < ws.len()
        invariant
            i <= ws@.len() == wv.len(),
            wv == words(cmd@),
            forall|t: int| 0 <= t < ws@.len() ==> #[trigger] ws@[t]@ == wv[t],
            iso_prefix@ == "isolcpus="@,
            nohz_prefix@ == "nohz_full="@,
            rcu_prefix@ == "rcu_nocbs="@,
            match iso {
                Some(k) => k < i && first_with_prefix(wv, "isolcpus="@) == Some(wv[k as int]),
                None => first_with_prefix(wv, "isolcpus="@) == first_with_prefix(
                    wv.skip(i as int),
                    "isolcpus="@,
                ),
            },
            nohz == any_with_prefix(wv.take(i as int), "nohz_full="@),
            rcu == any_with_prefix(wv.take(i as int), "rcu_nocbs="@),
        decreases ws@.len() - i,
    {
        let w = &ws[i];
        let is_iso = starts_with_at(w, 0, &iso_prefix);
        let is_nohz = starts_with_at(w, 0, &nohz_prefix);
        let is_rcu = starts_with_at(w, 0, &rcu_prefix);
        assert(w@.skip(0) =~= w@);
        proof {
            assert(wv.skip(i as int)[0] == wv[i as int]);
            assert(wv.skip(i as int).drop_first() =~= wv.skip(i + 1));
            if nohz {
                let k = choose|k: int| 0 <= k < i && starts_with(#[trigger] wv.take(i as int)[k], "nohz_full="@);
                assert(wv.take(i + 1)[k] == wv.take(i as int)[k]);
            }
            if rcu {
                let k = choose|k: int| 0 <= k < i && starts_with(#[trigger] wv.take(i as int)[k], "rcu_nocbs="@);
                assert(wv.take(i + 1)[k] == wv.take(i as int)[k]);
            }
            if is_nohz {
                assert(wv.take(i + 1)[i as int] == wv[i as int]);
            }
            if is_rcu {
                assert(wv.take(i + 1)[i as int] == wv[i as int]);
            }
            if !nohz && !is_nohz {
                assert forall|k: int| 0 <= k < i + 1 implies !starts_with(#[trigger] wv.take(i + 1)[k], "nohz_full="@) by {
                    if k < i {
                        assert(wv.take(i + 1)[k] == wv.take(i as int)[k]);
                    }
                }
            }
            if !rcu && !is_rcu {
                assert forall|k: int| 0 <= k < i + 1 implies !starts_with(#[trigger] wv.take(i + 1)[k], "rcu_nocbs="@) by {
                    if k < i {
                        assert(wv.take(i + 1)[k] == wv.take(i as int)[k]);
                    }
                }
            }
        }
        if iso.is_none() && is_iso {
            iso = Some(i);
        }
        nohz = nohz || is_nohz;
        rcu = rcu || is_rcu;
        i = i + 1;
    }
    proof {
        assert(wv.take(i as int) =~= wv);
        if iso.is_none() {
            assert(wv.skip(i as int).len() == 0);
        }
    }
    cfg.isolated_cores = match iso {
        Some(k) => {
            let w = &ws[k];
            proof {
                reveal_strlit("isolcpus=");
            }
            let start = strip_prefixes_at(w, 0, &iso_prefix);
            assert(w@.skip(0) =~= w@);
            let rest = crate::text::slice_of(w, start, w.len());
            assert(rest@ =~= w@.skip(start as int));
            let pieces = split_char(&rest, ',');
            let ghost ps = split_on(rest@, ',');
            let mut out: Vec<i32> = Vec::new();
            let mut j: usize = 0;
            while j < pieces.len()
                invariant
                    j <= pieces@.len() == ps.len(),
                    ps == split_on(rest@, ','),
                    forall|t: int| 0 <= t < pieces@.len() ==> #[trigger] pieces@[t]@ == ps[t],
                    out@ == int_pieces(ps.take(j as int)),
                decreases pieces@.len() - j,
            {
                let piece = &pieces[j];
                let parsed = parse_i32_in(piece, 0, piece.len());
                assert(piece@.subrange(0, piece@.len() as int) =~= piece@);
                assert(ps.take(j + 1).drop_last() =~= ps.take(j as int));
                assert(ps.take(j + 1).last() == ps[j as int]);
                match parsed {
                    Some(x) => out.push(x),
                    None => {},
                }
                assert(out@ =~= int_pieces(ps.take(j + 1)));
                j = j + 1;
            }
            assert(ps.take(j as int) =~= ps);
            out
        },
        None => Vec::new(),
    };
    cfg.apply_nohz_full = nohz;
    cfg.apply_rcu_nocbs = rcu;
    // swap is off when /proc/swaps holds only its header
    let swaps = chars_of(readings.swaps.as_str());
    let swap_lines = lines_in(&swaps);
    cfg.disable_swap = swap_lines.len() <= 1;
    // network namespaces
    let ns = chars_of(readings.netns_list.as_str());
    let srv = chars_of("ns_server");
    let cli = chars_of("ns_client");
    cfg.ns_server = if contains_in(&ns, &srv) {
        "ns_server".to_owned()
    } else {
        String::new()
    };
    cfg.ns_client = if contains_in(&ns, &cli) {
        "ns_client".to_owned()
    } else {
        String::new()
    };
    // process isolation comes from the active config, when there is one
    match readings.active {
        Some(active) => {
            cfg.server_cores = active.server_cores;
            cfg.client_cores = active.client_cores;
            cfg.rt_priority = active.rt_priority;
        },
        None => {
            cfg.server_cores = String::new();
            cfg.client_cores = String::new();
            cfg.rt_priority = 0;
        },
    }
    cfg.disable_aslr = trimmed_is(&readings.randomize_va_space, "0");
    let rmem = chars_of(readings.rmem_max.as_str());
    let (a, e) = trim_bounds(&rmem, 0, rmem.len());
    assert(rmem@.subrange(0, rmem@.len() as int) =~= readings.rmem_max@);
    let rmem_v: u64 = match parse_u64_in(&rmem, a, e) {
        Some(v) => v,
        None => 0,
    };
    cfg.tune_net_buffers = rmem_v >= 26_000_000;
    cfg.drop_caches = false;
    cfg.stop_timesyncd = !trimmed_is(&readings.timesyncd_state, "active");
    assert(cfg@ =~= live_config(
        match readings.boost {
            Some(b) => Some(b@),
            None => None,
        },
        readings.cmdline@,
        readings.swaps@,
        readings.netns_list@,
        match readings.active {
            Some(a) => Some(a@),
            None => None,
        },
        readings.randomize_va_space@,
        readings.rmem_max@,
        readings.timesyncd_state@,
    ));
    cfg
}

/// A restore point takes its process-isolation settings (server cores,
/// client cores, real-time priority) from the active configuration alone:
/// with no active configuration saved they are empty and 0, since nothing
/// on the live system records them. Caches are never recorded as dropped.
pub proof fn lemma_capture_process_isolation(
    boost: Option<Seq<char>>,
    cmdline: Seq<char>,
    swaps: Seq<char>,
    netns_list: Seq<char>,
    active: Option<ConfigView>,
    aslr: Seq<char>,
    rmem: Seq<char>,
    timesyncd: Seq<char>,
)
    ensures
        ({
            let c = live_config(boost, cmdline, swaps, netns_list, active, aslr, rmem, timesyncd);
            &&& !c.drop_caches
            &&& match active {
                None => c.server_cores.len() == 0 && c.client_cores.len() == 0 && c.rt_priority == 0,
                Some(a) => c.server_cores == a.server_cores && c.client_cores == a.client_cores
                    && c.rt_priority == a.rt_priority,
            }
        }),
{
}

/// A restore point records the test namespaces exactly when they are
/// listed, keeps time synchronisation stopped unless the service reports
/// itself active, and isolates no cores when the kernel command line has
/// no `isolcpus=` word.
pub proof fn lemma_capture_namespaces_and_cores(
    boost: Option<Seq<char>>,
    cmdline: Seq<char>,
    swaps: Seq<char>,
    netns_list: Seq<char>,
    active: Option<ConfigView>,
    aslr: Seq<char>,
    rmem: Seq<char>,
    timesyncd: Seq<char>,
)
    ensures
        ({
            let c = live_config(boost, cmdline, swaps, netns_list, active, aslr, rmem, timesyncd);
            &&& contains(netns_list, "ns_server"@) ==> c.ns_server == "ns_server"@
            &&& !contains(netns_list, "ns_server"@) ==> c.ns_server.len() == 0
            &&& contains(netns_list, "ns_client"@) ==> c.ns_client == "ns_client"@
            &&& !contains(netns_list, "ns_client"@) ==> c.ns_client.len() == 0
            &&& c.stop_timesyncd <==> trim(timesyncd) != "active"@
            &&& (forall|i: int| 0 <= i < words(cmdline).len() ==> !starts_with(#[trigger] words(cmdline)[i], "isolcpus="@))
                ==> c.isolated_cores.len() == 0
        }),
{
    lemma_no_prefix_word(words(cmdline), "isolcpus="@);
}

/// With no word starting with `p`, none is found.
proof fn lemma_no_prefix_word(ws: Seq<Seq<char>>, p: Seq<char>)
    ensures
        (forall|i: int| 0 <= i < ws.len() ==> !starts_with(#[trigger] ws[i], p)) ==> first_with_prefix(ws, p) is None,
    decreases ws.len(),
{
    if ws.len() > 0 {
        lemma_no_prefix_word(ws.drop_first(), p);
        if forall|i: int| 0 <= i < ws.len() ==> !starts_with(#[trigger] ws[i], p) {
            assert forall|i: int| 0 <= i < ws.drop_first().len() implies !starts_with(#[trigger] ws.drop_first()[i], p) by {
                assert(ws.drop_first()[i] == ws[i + 1]);
            }
        }
    }
}

} // verus!
