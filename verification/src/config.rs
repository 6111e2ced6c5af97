//! The setup configuration and its JSON form.
//!
//! The JSON is written by hand and read back with minimal field
//! extractors: each key is looked up by its first occurrence of
//! `"<key>":`, and a key that is missing or unreadable keeps its default.
use vstd::prelude::*;
use crate::text::{
    chars_of, is_space, leading_space, skip_space, split_char, split_on, trim, trim_bounds, trim_start,
    parse_i32_in, parse_i32_spec, parse_i64_in, parse_i64_spec, starts_with, starts_with_at,
    string_of,
    all_digits, all_digits_in, digit_char, digit_to_char, digits_magnitude, digits_value, find,
    find_in, int_text, join, lemma_digits_value_prefix, lemma_find_from_facts, nat_text, push_char,
    push_chars, push_i64, push_u64, slice_of, is_digit,
};

verus! {

/// What the benchmark machine is set up with.
///
/// The NetEm loss is held in millionths of a percent: `100_000` is 0.1 %.
#[derive(Debug, Clone)]
pub struct SetupConfig {
    pub isolated_cores: Vec<i32>,
    pub housekeeping_core: i32,
    pub disable_frequency_boost: bool,
    pub max_cstate: i32,
    pub stop_irqbalance: bool,
    pub disable_swap: bool,
    pub isolate_multiuser: bool,
    pub ns_server: String,
    pub ns_client: String,
    pub veth_server: String,
    pub veth_client: String,
    pub server_ip: String,
    pub client_ip: String,
    pub netem_delay_ms: i32,
    pub netem_jitter_ms: i32,
    pub netem_loss_micropct: i64,
    pub disable_offloading: bool,
    /// `taskset -c` argument for the server, e.g. "2,4".
    pub server_cores: String,
    /// `taskset -c` argument for the client, e.g. "3,5".
    pub client_cores: String,
    /// `chrt -f` priority; 0 means no real-time scheduling.
    pub rt_priority: i32,
    pub disable_aslr: bool,
    pub tune_net_buffers: bool,
    pub drop_caches: bool,
    pub stop_timesyncd: bool,
    pub apply_nohz_full: bool,
    pub apply_rcu_nocbs: bool,
}

/// A `SetupConfig` as values.
#[verifier::ext_equal]
pub struct ConfigView {
    pub isolated_cores: Seq<i32>,
    pub housekeeping_core: i32,
    pub disable_frequency_boost: bool,
    pub max_cstate: i32,
    pub stop_irqbalance: bool,
    pub disable_swap: bool,
    pub isolate_multiuser: bool,
    pub ns_server: Seq<char>,
    pub ns_client: Seq<char>,
    pub veth_server: Seq<char>,
    pub veth_client: Seq<char>,
    pub server_ip: Seq<char>,
    pub client_ip: Seq<char>,
    pub netem_delay_ms: i32,
    pub netem_jitter_ms: i32,
    pub netem_loss_micropct: i64,
    pub disable_offloading: bool,
    pub server_cores: Seq<char>,
    pub client_cores: Seq<char>,
    pub rt_priority: i32,
    pub disable_aslr: bool,
    pub tune_net_buffers: bool,
    pub drop_caches: bool,
    pub stop_timesyncd: bool,
    pub apply_nohz_full: bool,
    pub apply_rcu_nocbs: bool,
}

impl View for SetupConfig {
    type V = ConfigView;

    open spec fn view(&self) -> ConfigView {
        ConfigView {
            isolated_cores: self.isolated_cores@,
            housekeeping_core: self.housekeeping_core,
            disable_frequency_boost: self.disable_frequency_boost,
            max_cstate: self.max_cstate,
            stop_irqbalance: self.stop_irqbalance,
            disable_swap: self.disable_swap,
            isolate_multiuser: self.isolate_multiuser,
            ns_server: self.ns_server@,
            ns_client: self.ns_client@,
            veth_server: self.veth_server@,
            veth_client: self.veth_client@,
            server_ip: self.server_ip@,
            client_ip: self.client_ip@,
            netem_delay_ms: self.netem_delay_ms,
            netem_jitter_ms: self.netem_jitter_ms,
            netem_loss_micropct: self.netem_loss_micropct,
            disable_offloading: self.disable_offloading,
            server_cores: self.server_cores@,
            client_cores: self.client_cores@,
            rt_priority: self.rt_priority,
            disable_aslr: self.disable_aslr,
            tune_net_buffers: self.tune_net_buffers,
            drop_caches: self.drop_caches,
            stop_timesyncd: self.stop_timesyncd,
            apply_nohz_full: self.apply_nohz_full,
            apply_rcu_nocbs: self.apply_rcu_nocbs,
        }
    }
}

/// The configuration the paper's methodology prescribes.
pub open spec fn default_config() -> ConfigView {
    ConfigView {
        isolated_cores: seq![2i32, 3, 4, 5],
        housekeeping_core: 0,
        disable_frequency_boost: true,
        max_cstate: 0,
        stop_irqbalance: true,
        disable_swap: true,
        isolate_multiuser: false,
        ns_server: "ns_server"@,
        ns_client: "ns_client"@,
        veth_server: "veth-srv"@,
        veth_client: "veth-cli"@,
        server_ip: "10.0.0.1/24"@,
        client_ip: "10.0.0.2/24"@,
        netem_delay_ms: 25,
        netem_jitter_ms: 5,
        netem_loss_micropct: 100_000,
        disable_offloading: true,
        server_cores: "2,4"@,
        client_cores: "3,5"@,
        rt_priority: 50,
        disable_aslr: true,
        tune_net_buffers: true,
        drop_caches: true,
        stop_timesyncd: true,
        apply_nohz_full: true,
        apply_rcu_nocbs: true,
    }
}

impl Default for SetupConfig {
    fn default() -> (r: Self)
        ensures
            r@ == default_config(),
    {
        let r = SetupConfig {
            isolated_cores: vec![2, 3, 4, 5],
            housekeeping_core: 0,
            disable_frequency_boost: true,
            max_cstate: 0,
            stop_irqbalance: true,
            disable_swap: true,
            isolate_multiuser: false,
            ns_server: "ns_server".to_owned(),
            ns_client: "ns_client".to_owned(),
            veth_server: "veth-srv".to_owned(),
            veth_client: "veth-cli".to_owned(),
            server_ip: "10.0.0.1/24".to_owned(),
            client_ip: "10.0.0.2/24".to_owned(),
            netem_delay_ms: 25,
            netem_jitter_ms: 5,
            netem_loss_micropct: 100_000,
            disable_offloading: true,
            server_cores: "2,4".to_owned(),
            client_cores: "3,5".to_owned(),
            rt_priority: 50,
            disable_aslr: true,
            tune_net_buffers: true,
            drop_caches: true,
            stop_timesyncd: true,
            apply_nohz_full: true,
            apply_rcu_nocbs: true,
        };
        assert(r@.isolated_cores =~= seq![2i32, 3, 4, 5]);
        r
    }
}

// ------------------------------------------------------------------ //
//  Numbers with up to six decimals                                    //
// ------------------------------------------------------------------ //

pub open spec fn pow10(k: nat) -> nat
    decreases k,
{
    if k == 0 {
        1
    } else {
        10 * pow10((k - 1) as nat)
    }
}

/// The six decimals of a fraction `f < 1_000_000` (in millionths), zero-padded.
pub open spec fn six_digits(f: nat) -> Seq<char> {
    Seq::new(6, |i: int| digit_char((f / pow10((5 - i) as nat)) % 10))
}

/// `s` without its trailing zeros.
pub open spec fn strip_zeros(s: Seq<char>) -> Seq<char>
    decreases s.len(),
{
    if s.len() > 0 && s.last() == '0' {
        strip_zeros(s.drop_last())
    } else {
        s
    }
}

/// The shortest decimal text of `v` millionths: `100_000` is `0.1`,
/// `2_000_000` is `2`, as `Display` writes such a number.
pub open spec fn micro_text(v: int) -> Seq<char> {
    let m: nat = if v < 0 {
        (-v) as nat
    } else {
        v as nat
    };
    let ip = m / 1_000_000;
    let fp = m % 1_000_000;
    (if v < 0 {
        seq!['-']
    } else {
        Seq::empty()
    }) + nat_text(ip) + (if fp == 0 {
        Seq::empty()
    } else {
        seq!['.'] + strip_zeros(six_digits(fp))
    })
}

/// The value, in millionths, of a decimal number made of an optional `-`,
/// digits, and an optional `.` with digits (at least one digit in all);
/// digits past the sixth decimal are dropped.
pub open spec fn micro_value(s: Seq<char>) -> Option<int> {
    let neg = s.len() > 0 && s[0] == '-';
    let body = if neg {
        s.drop_first()
    } else {
        s
    };
    let ip = match find(body, seq!['.']) {
        Some(d) => body.take(d),
        None => body,
    };
    let fp = match find(body, seq!['.']) {
        Some(d) => body.skip(d + 1),
        None => Seq::empty(),
    };
    let k: nat = if fp.len() < 6 {
        fp.len()
    } else {
        6
    };
    if all_digits(ip) && all_digits(fp) && ip.len() + fp.len() > 0 {
        let m = digits_value(ip) * 1_000_000 + digits_value(fp.take(k as int)) * pow10((6 - k) as nat);
        Some(
            if neg {
                -m
            } else {
                m as int
            },
        )
    } else {
        None
    }
}

/// `micro_value` when the result fits an `i64`.
pub open spec fn parse_micro(s: Seq<char>) -> Option<i64> {
    match micro_value(s) {
        Some(v) => if i64::MIN <= v <= i64::MAX {
            Some(v as i64)
        } else {
            None
        },
        None => None,
    }
}

proof fn lemma_pow10_values()
    ensures
        pow10(0) == 1,
        pow10(1) == 10,
        pow10(2) == 100,
        pow10(3) == 1000,
        pow10(4) == 10000,
        pow10(5) == 100000,
        pow10(6) == 1000000,
{
    reveal_with_fuel(pow10, 7);
}

/// Appends the shortest decimal text of `v` millionths.
pub fn push_micro(s: &mut String, v: i64)
    ensures
        final(s)@ == old(s)@ + micro_text(v as int),
{
    proof {
        lemma_pow10_values();
    }
    let m: u64 = if v < 0 {
        (0i128 - v as i128) as u64
    } else {
        v as u64
    };
    if v < 0 {
        push_char(s, '-');
    }
    let ghost pre = s@;
    push_u64(s, m / 1_000_000);
    let fp: u64 = m % 1_000_000;
    if fp != 0 {
        let mut digits: Vec<char> = Vec::new();
        let mut div: u64 = 100_000;
        let mut i: usize = 0;
        let ghost six = six_digits(fp as nat);
        while i < 6
            invariant
                i <= 6,
                six == six_digits(fp as nat),
                div as nat == pow10((5 - i) as nat) || (i == 6 && div == 0),
                i < 6 ==> div as nat == pow10((5 - i) as nat),
                digits@ == six.take(i as int),
                fp < 1_000_000,
            decreases 6 - i,
        {
            proof {
                lemma_pow10_values();
            }
            let d = (fp / div) % 10;
            digits.push(digit_to_char(d));
            assert(six.take(i + 1) =~= six.take(i as int).push(six[i as int]));
            div = div / 10;
            i = i + 1;
        }
        assert(digits@ =~= six);
        let mut end: usize = 6;
        while end > 0 && digits[end - 1] == '0'
            invariant
                end <= 6,
                six.len() == 6,
                digits@.len() == 6,
                digits@ == six,
                strip_zeros(six) == strip_zeros(six.take(end as int)),
            decreases end,
        {
            assert(six.take(end as int).drop_last() =~= six.take(end - 1));
            end = end - 1;
        }
        assert(strip_zeros(six.take(end as int)) == six.take(end as int));
        push_char(s, '.');
        push_chars(s, &digits, 0, end);
        assert(digits@.subrange(0, end as int) =~= six.take(end as int));
    }
    assert(s@ =~= old(s)@ + micro_text(v as int));
}

/// Parses `v[start..end]` as a decimal number of millionths.
#[verifier::spinoff_prover]
pub fn parse_micro_in(v: &Vec<char>, start: usize, end: usize) -> (r: Option<i64>)
    requires
        start <= end <= v.len(),
    ensures
        r == parse_micro(v@.subrange(start as int, end as int)),
{
    proof {
        lemma_pow10_values();
    }
    let ghost s = v@.subrange(start as int, end as int);
    let neg = start < end && v[start] == '-';
    let b0 = if neg {
        start + 1
    } else {
        start
    };
    let ghost body = if neg {
        s.drop_first()
    } else {
        s
    };
    assert(body =~= v@.subrange(b0 as int, end as int));
    let body_v = slice_of(v, b0, end);
    assert(body_v@ == body);
    let dot = vec!['.'];
    assert(dot@ =~= seq!['.']);
    let found = find_in(&body_v, &dot, 0);
    proof {
        lemma_find_from_facts(body, seq!['.'], 0);
    }
    let (ip_end, fp_start) = match found {
        Some(d) => (d, d + 1),
        None => (body_v.len(), body_v.len()),
    };
    assert(match find(body, seq!['.']) {
        Some(d) => body.take(d) =~= body_v@.subrange(0, ip_end as int),
        None => body =~= body_v@.subrange(0, ip_end as int),
    });
    assert(match find(body, seq!['.']) {
        Some(d) => body.skip(d + 1) =~= body_v@.subrange(fp_start as int, body_v@.len() as int),
        None => Seq::<char>::empty() =~= body_v@.subrange(fp_start as int, body_v@.len() as int),
    });
    if !all_digits_in(&body_v, 0, ip_end) || !all_digits_in(&body_v, fp_start, body_v.len()) {
        return None;
    }
    if ip_end + (body_v.len() - fp_start) == 0 {
        return None;
    }
    let ghost ip = match find(body, seq!['.']) {
        Some(d) => body.take(d),
        None => body,
    };
    assert(ip == body_v@.subrange(0, ip_end as int));
    let ip_m = match digits_magnitude(&body_v, 0, ip_end) {
        Some(m) => m,
        None => {
            assert(digits_value(ip) > 0x1_0000_0000_0000_0000);
            assert(micro_value(s) is Some ==> micro_value(s).unwrap() > i64::MAX || micro_value(
                s,
            ).unwrap() < i64::MIN);
            assert(parse_micro(s) is None);
            return None;
        },
    };
    let flen = body_v.len() - fp_start;
    let k: usize = if flen < 6 {
        flen
    } else {
        6
    };
    let ghost fp = body_v@.subrange(fp_start as int, body_v@.len() as int);
    assert(fp.take(k as int) =~= body_v@.subrange(fp_start as int, fp_start + k));
    proof {
        lemma_digits_six(fp.take(k as int));
        lemma_pow10_values();
    }
    let fp_m = match digits_magnitude(&body_v, fp_start, fp_start + k) {
        Some(m) => m,
        None => {
            return None;
        },
    };
    let scale: u128 = if k == 0 {
        1_000_000
    } else if k == 1 {
        100_000
    } else if k == 2 {
        10_000
    } else if k == 3 {
        1000
    } else if k == 4 {
        100
    } else if k == 5 {
        10
    } else {
        1
    };
    assert(scale == pow10((6 - k) as nat));
    assert(fp_m < 1_000_000) by {
        lemma_digits_six(fp.take(k as int));
    }
    assert(fp_m * scale <= 1_000_000 * 1_000_000) by (nonlinear_arith)
        requires
            fp_m < 1_000_000,
            scale <= 1_000_000,
    ;
    let mag: u128 = ip_m * 1_000_000 + fp_m * scale;
    let x: i128 = if neg {
        0 - mag as i128
    } else {
        mag as i128
    };
    if x < i64::MIN as i128 || x > i64::MAX as i128 {
        return None;
    }
    Some(x as i64)
}

proof fn lemma_digits_six(d: Seq<char>)
    requires
        d.len() <= 6,
        all_digits(d),
    ensures
        digits_value(d) < pow10(d.len()),
    decreases d.len(),
{
    if d.len() > 0 {
        lemma_digits_six(d.drop_last());
        assert(is_digit(d[d.len() - 1]));
        assert(pow10(d.len()) == 10 * pow10((d.len() - 1) as nat));
    }
}

// ------------------------------------------------------------------ //
//  Writing                                                            //
// ------------------------------------------------------------------ //

pub open spec fn bool_text(b: bool) -> Seq<char> {
    if b {
        "true"@
    } else {
        "false"@
    }
}

/// The decimal texts of a list of integers.
pub open spec fn int_texts(v: Seq<i32>) -> Seq<Seq<char>> {
    Seq::new(v.len(), |i: int| int_text(v[i] as int))
}

/// `"<key>": <value>`: one member of a JSON object.
pub open spec fn entry(key: Seq<char>, value: Seq<char>) -> Seq<char> {
    seq!['"'] + key + seq!['"', ':', ' '] + value
}

/// A JSON string holding `s` as it is.
pub open spec fn quoted(s: Seq<char>) -> Seq<char> {
    seq!['"'] + s + seq!['"']
}

/// The keys of a stored configuration, in field order.
pub open spec fn config_keys() -> Seq<Seq<char>> {
    seq![
        "isolated_cores"@,
        "housekeeping_core"@,
        "disable_frequency_boost"@,
        "max_cstate"@,
        "stop_irqbalance"@,
        "disable_swap"@,
        "isolate_multiuser"@,
        "ns_server"@,
        "ns_client"@,
        "veth_server"@,
        "veth_client"@,
        "server_ip"@,
        "client_ip"@,
        "netem_delay_ms"@,
        "netem_jitter_ms"@,
        "netem_loss_pct"@,
        "disable_offloading"@,
        "server_cores"@,
        "client_cores"@,
        "rt_priority"@,
        "disable_aslr"@,
        "tune_net_buffers"@,
        "drop_caches"@,
        "stop_timesyncd"@,
        "apply_nohz_full"@,
        "apply_rcu_nocbs"@,
    ]
}

/// The JSON text of each field's value, in field order.
pub open spec fn config_values(c: ConfigView) -> Seq<Seq<char>> {
    seq![
        seq!['['] + join(int_texts(c.isolated_cores), ", "@) + seq![']'],
        int_text(c.housekeeping_core as int),
        bool_text(c.disable_frequency_boost),
        int_text(c.max_cstate as int),
        bool_text(c.stop_irqbalance),
        bool_text(c.disable_swap),
        bool_text(c.isolate_multiuser),
        quoted(c.ns_server),
        quoted(c.ns_client),
        quoted(c.veth_server),
        quoted(c.veth_client),
        quoted(c.server_ip),
        quoted(c.client_ip),
        int_text(c.netem_delay_ms as int),
        int_text(c.netem_jitter_ms as int),
        micro_text(c.netem_loss_micropct as int),
        bool_text(c.disable_offloading),
        quoted(c.server_cores),
        quoted(c.client_cores),
        int_text(c.rt_priority as int),
        bool_text(c.disable_aslr),
        bool_text(c.tune_net_buffers),
        bool_text(c.drop_caches),
        bool_text(c.stop_timesyncd),
        bool_text(c.apply_nohz_full),
        bool_text(c.apply_rcu_nocbs),
    ]
}

pub open spec fn config_entries(c: ConfigView) -> Seq<Seq<char>> {
    Seq::new(26, |i: int| entry(config_keys()[i], config_values(c)[i]))
}

/// The JSON document that stores a configuration: an object with one
/// member per field, in field order, one per line.
pub open spec fn config_json(c: ConfigView) -> Seq<char> {
    seq!['{', '\n'] + join(config_entries(c), seq![',', '\n']) + seq!['\n', '}']
}

fn push_bool(s: &mut String, b: bool)
    ensures
        final(s)@ == old(s)@ + bool_text(b),
{
    if b {
        s.append("true");
    } else {
        s.append("false");
    }
}

/// Appends the integers of `v`, separated by `sep`.
pub fn push_joined_ints(s: &mut String, v: &Vec<i32>, sep: &str)
    ensures
        final(s)@ == old(s)@ + join(int_texts(v@), sep@),
{
    let ghost texts = int_texts(v@);
    let ghost pre = s@;
    let mut i: usize = 0;
    while i < v.len()
        invariant
            i <= v@.len(),
            texts == int_texts(v@),
            s@ == pre + join(texts.take(i as int), sep@),
        decreases v@.len() - i,
    {
        let ghost before = s@;
        if i > 0 {
            s.append(sep);
        }
        push_i64(s, v[i] as i64);
        proof {
            let t = texts.take(i + 1);
            assert(t.drop_last() =~= texts.take(i as int));
            assert(t.last() == int_text(v@[i as int] as int));
            if i == 0 {
                assert(t.len() == 1);
                assert(join(t, sep@) == t[0]);
                assert(join(texts.take(0), sep@) =~= Seq::<char>::empty());
            }
            assert(s@ =~= pre + join(t, sep@));
        }
        i = i + 1;
    }
    assert(texts.take(i as int) =~= texts);
}

fn bool_string(b: bool) -> (r: String)
    ensures
        r@ == bool_text(b),
{
    let mut s = String::new();
    push_bool(&mut s, b);
    s
}

fn int_string(v: i32) -> (r: String)
    ensures
        r@ == int_text(v as int),
{
    let mut s = String::new();
    push_i64(&mut s, v as i64);
    s
}

fn quoted_string(v: &String) -> (r: String)
    ensures
        r@ == quoted(v@),
{
    let mut s = String::new();
    push_char(&mut s, '"');
    s.append(v.as_str());
    push_char(&mut s, '"');
    s
}

/// `"<key>": <value>`.
fn entry_string(key: &str, value: String) -> (r: String)
    ensures
        r@ == entry(key@, value@),
{
    let mut s = String::new();
    push_char(&mut s, '"');
    s.append(key);
    push_char(&mut s, '"');
    push_char(&mut s, ':');
    push_char(&mut s, ' ');
    s.append(value.as_str());
    assert(s@ =~= entry(key@, value@));
    s
}

/// Appends `parts`, with `sep` between neighbours.
fn push_joined(s: &mut String, parts: &Vec<String>, sep: &Vec<char>)
    ensures
        final(s)@ == old(s)@ + join(Seq::new(parts@.len(), |i: int| parts@[i]@), sep@),
{
    let ghost texts = Seq::new(parts@.len(), |i: int| parts@[i]@);
    let ghost pre = s@;
    let mut i: usize = 0;
    assert(join(texts.take(0), sep@) =~= Seq::<char>::empty());
    while i < parts.len()
        invariant
            i <= parts@.len(),
            texts == Seq::new(parts@.len(), |i: int| parts@[i]@),
            s@ == pre + join(texts.take(i as int), sep@),
        decreases parts@.len() - i,
    {
        if i > 0 {
            push_chars(s, sep, 0, sep.len());
            assert(sep@.subrange(0, sep@.len() as int) =~= sep@);
        }
        s.append(parts[i].as_str());
        proof {
            let t = texts.take(i + 1);
            assert(t.drop_last() =~= texts.take(i as int));
            if i == 0 {
                assert(t.len() == 1);
                assert(join(t, sep@) == t[0]);
            }
            assert(s@ =~= pre + join(t, sep@));
        }
        i = i + 1;
    }
    assert(texts.take(i as int) =~= texts);
}

/// The JSON form of a configuration.
#[verifier::spinoff_prover]
#[verifier::rlimit(80)]
pub fn to_json(c: &SetupConfig) -> (r: String)
    ensures
        r@ == config_json(c@),
{
    let mut cores = String::new();
    push_char(&mut cores, '[');
    push_joined_ints(&mut cores, &c.isolated_cores, ", ");
    push_char(&mut cores, ']');
    let mut loss = String::new();
    push_micro(&mut loss, c.netem_loss_micropct);
    let entries = vec![
        entry_string("isolated_cores", cores),
        entry_string("housekeeping_core", int_string(c.housekeeping_core)),
        entry_string("disable_frequency_boost", bool_string(c.disable_frequency_boost)),
        entry_string("max_cstate", int_string(c.max_cstate)),
        entry_string("stop_irqbalance", bool_string(c.stop_irqbalance)),
        entry_string("disable_swap", bool_string(c.disable_swap)),
        entry_string("isolate_multiuser", bool_string(c.isolate_multiuser)),
        entry_string("ns_server", quoted_string(&c.ns_server)),
        entry_string("ns_client", quoted_string(&c.ns_client)),
        entry_string("veth_server", quoted_string(&c.veth_server)),
        entry_string("veth_client", quoted_string(&c.veth_client)),
        entry_string("server_ip", quoted_string(&c.server_ip)),
        entry_string("client_ip", quoted_string(&c.client_ip)),
        entry_string("netem_delay_ms", int_string(c.netem_delay_ms)),
        entry_string("netem_jitter_ms", int_string(c.netem_jitter_ms)),
        entry_string("netem_loss_pct", loss),
        entry_string("disable_offloading", bool_string(c.disable_offloading)),
        entry_string("server_cores", quoted_string(&c.server_cores)),
        entry_string("client_cores", quoted_string(&c.client_cores)),
        entry_string("rt_priority", int_string(c.rt_priority)),
        entry_string("disable_aslr", bool_string(c.disable_aslr)),
        entry_string("tune_net_buffers", bool_string(c.tune_net_buffers)),
        entry_string("drop_caches", bool_string(c.drop_caches)),
        entry_string("stop_timesyncd", bool_string(c.stop_timesyncd)),
        entry_string("apply_nohz_full", bool_string(c.apply_nohz_full)),
        entry_string("apply_rcu_nocbs", bool_string(c.apply_rcu_nocbs)),
    ];
    proof {
        let ks = config_keys();
        let vs = config_values(c@);
        assert(entries@[0]@ == config_entries(c@)[0]);
        assert(entries@[1]@ == config_entries(c@)[1]);
        assert(entries@[2]@ == config_entries(c@)[2]);
        assert(entries@[3]@ == config_entries(c@)[3]);
        assert(entries@[4]@ == config_entries(c@)[4]);
        assert(entries@[5]@ == config_entries(c@)[5]);
        assert(entries@[6]@ == config_entries(c@)[6]);
        assert(entries@[7]@ == config_entries(c@)[7]);
        assert(entries@[8]@ == config_entries(c@)[8]);
        assert(entries@[9]@ == config_entries(c@)[9]);
        assert(entries@[10]@ == config_entries(c@)[10]);
        assert(entries@[11]@ == config_entries(c@)[11]);
        assert(entries@[12]@ == config_entries(c@)[12]);
        assert(entries@[13]@ == config_entries(c@)[13]);
        assert(entries@[14]@ == config_entries(c@)[14]);
        assert(entries@[15]@ == config_entries(c@)[15]);
        assert(entries@[16]@ == config_entries(c@)[16]);
        assert(entries@[17]@ == config_entries(c@)[17]);
        assert(entries@[18]@ == config_entries(c@)[18]);
        assert(entries@[19]@ == config_entries(c@)[19]);
        assert(entries@[20]@ == config_entries(c@)[20]);
        assert(entries@[21]@ == config_entries(c@)[21]);
        assert(entries@[22]@ == config_entries(c@)[22]);
        assert(entries@[23]@ == config_entries(c@)[23]);
        assert(entries@[24]@ == config_entries(c@)[24]);
        assert(entries@[25]@ == config_entries(c@)[25]);
    }
    assert(Seq::new(entries@.len(), |i: int| entries@[i]@) =~= config_entries(c@));
    let mut s = String::new();
    push_char(&mut s, '{');
    push_char(&mut s, '\n');
    let sep = vec![',', '\n'];
    push_joined(&mut s, &entries, &sep);
    push_char(&mut s, '\n');
    push_char(&mut s, '}');
    assert(s@ =~= config_json(c@));
    s
}

// ------------------------------------------------------------------ //
//  Reading                                                            //
// ------------------------------------------------------------------ //

/// The text that introduces a key: `"<key>":`.
pub open spec fn key_needle(key: Seq<char>) -> Seq<char> {
    seq!['"'] + key + seq!['"', ':']
}

/// What follows the first `"<key>":` in `json`, leading whitespace removed.
pub open spec fn value_after(json: Seq<char>, key: Seq<char>) -> Option<Seq<char>> {
    match find(json, key_needle(key)) {
        Some(i) => Some(trim_start(json.skip(i + key_needle(key).len()))),
        None => None,
    }
}

/// The text between `[` and the next `]` of an array value.
pub open spec fn json_array_spec(json: Seq<char>, key: Seq<char>) -> Option<Seq<char>> {
    match value_after(json, key) {
        Some(rest) => if rest.len() > 0 && rest[0] == '[' {
            match find(rest, seq![']']) {
                Some(e) => Some(rest.subrange(1, e)),
                None => None,
            }
        } else {
            None
        },
        None => None,
    }
}

/// Length of the leading run of digits and `-` (and `.` when `dot`).
pub open spec fn num_span(s: Seq<char>, dot: bool) -> nat
    decreases s.len(),
{
    if s.len() > 0 && (is_digit(s[0]) || s[0] == '-' || (dot && s[0] == '.')) {
        1 + num_span(s.drop_first(), dot)
    } else {
        0
    }
}

/// An integer value: the leading run of digits and `-`, parsed as `i64`.
pub open spec fn json_int_spec(json: Seq<char>, key: Seq<char>) -> Option<i64> {
    match value_after(json, key) {
        Some(rest) => parse_i64_spec(trim(rest.take(num_span(rest, false) as int))),
        None => None,
    }
}

/// A decimal value: the leading run of digits, `.` and `-`, in millionths.
pub open spec fn json_micro_spec(json: Seq<char>, key: Seq<char>) -> Option<i64> {
    match value_after(json, key) {
        Some(rest) => parse_micro(trim(rest.take(num_span(rest, true) as int))),
        None => None,
    }
}

/// A boolean value: the value starts with `true` or with `false`.
pub open spec fn json_bool_spec(json: Seq<char>, key: Seq<char>) -> Option<bool> {
    match value_after(json, key) {
        Some(rest) => if starts_with(rest, "true"@) {
            Some(true)
        } else if starts_with(rest, "false"@) {
            Some(false)
        } else {
            None
        },
        None => None,
    }
}

/// A string value: the text between the opening `"` and the next `"`.
pub open spec fn json_str_spec(json: Seq<char>, key: Seq<char>) -> Option<Seq<char>> {
    match value_after(json, key) {
        Some(rest) => if rest.len() > 0 && rest[0] == '"' {
            match find(rest.drop_first(), seq!['"']) {
                Some(e) => Some(rest.drop_first().take(e)),
                None => None,
            }
        } else {
            None
        },
        None => None,
    }
}

/// The integers among comma-separated pieces, in order; a piece that is
/// not an `i32` after trimming is skipped.
pub open spec fn parse_core_list(pieces: Seq<Seq<char>>) -> Seq<i32>
    decreases pieces.len(),
{
    if pieces.len() == 0 {
        Seq::empty()
    } else {
        parse_core_list(pieces.drop_last()) + match parse_i32_spec(trim(pieces.last())) {
            Some(x) => seq![x],
            None => Seq::empty(),
        }
    }
}

pub open spec fn int_or(json: Seq<char>, key: Seq<char>, d: i32) -> i32 {
    match json_int_spec(json, key) {
        Some(v) => v as i32,
        None => d,
    }
}

pub open spec fn bool_or(json: Seq<char>, key: Seq<char>, d: bool) -> bool {
    match json_bool_spec(json, key) {
        Some(v) => v,
        None => d,
    }
}

pub open spec fn str_or(json: Seq<char>, key: Seq<char>, d: Seq<char>) -> Seq<char> {
    match json_str_spec(json, key) {
        Some(v) => v,
        None => d,
    }
}

/// The configuration read from a JSON document: every key found replaces
/// the default, every key missing or unreadable keeps it.
pub open spec fn config_from_json(j: Seq<char>) -> ConfigView {
    let d = default_config();
    ConfigView {
        isolated_cores: match json_array_spec(j, "isolated_cores"@) {
            Some(v) => parse_core_list(split_on(v, ',')),
            None => d.isolated_cores,
        },
        housekeeping_core: int_or(j, "housekeeping_core"@, d.housekeeping_core),
        disable_frequency_boost: bool_or(j, "disable_frequency_boost"@, d.disable_frequency_boost),
        max_cstate: int_or(j, "max_cstate"@, d.max_cstate),
        stop_irqbalance: bool_or(j, "stop_irqbalance"@, d.stop_irqbalance),
        disable_swap: bool_or(j, "disable_swap"@, d.disable_swap),
        isolate_multiuser: bool_or(j, "isolate_multiuser"@, d.isolate_multiuser),
        ns_server: str_or(j, "ns_server"@, d.ns_server),
        ns_client: str_or(j, "ns_client"@, d.ns_client),
        veth_server: str_or(j, "veth_server"@, d.veth_server),
        veth_client: str_or(j, "veth_client"@, d.veth_client),
        server_ip: str_or(j, "server_ip"@, d.server_ip),
        client_ip: str_or(j, "client_ip"@, d.client_ip),
        netem_delay_ms: int_or(j, "netem_delay_ms"@, d.netem_delay_ms),
        netem_jitter_ms: int_or(j, "netem_jitter_ms"@, d.netem_jitter_ms),
        netem_loss_micropct: match json_micro_spec(j, "netem_loss_pct"@) {
            Some(v) => v,
            None => d.netem_loss_micropct,
        },
        disable_offloading: bool_or(j, "disable_offloading"@, d.disable_offloading),
        server_cores: str_or(j, "server_cores"@, d.server_cores),
        client_cores: str_or(j, "client_cores"@, d.client_cores),
        rt_priority: int_or(j, "rt_priority"@, d.rt_priority),
        disable_aslr: bool_or(j, "disable_aslr"@, d.disable_aslr),
        tune_net_buffers: bool_or(j, "tune_net_buffers"@, d.tune_net_buffers),
        drop_caches: bool_or(j, "drop_caches"@, d.drop_caches),
        stop_timesyncd: bool_or(j, "stop_timesyncd"@, d.stop_timesyncd),
        apply_nohz_full: bool_or(j, "apply_nohz_full"@, d.apply_nohz_full),
        apply_rcu_nocbs: bool_or(j, "apply_rcu_nocbs"@, d.apply_rcu_nocbs),
    }
}

/// Where the value of `key` starts in `j`: just past `"<key>":` and the
/// whitespace after it.
fn value_pos(j: &Vec<char>, key: &str) -> (r: Option<usize>)
    ensures
        match r {
            Some(p) => p <= j@.len() && value_after(j@, key@) == Some(j@.skip(p as int)),
            None => value_after(j@, key@) is None,
        },
{
    let k = chars_of(key);
    let mut needle: Vec<char> = Vec::new();
    needle.push('"');
    let mut t: usize = 0;
    while t < k.len()
        invariant
            t <= k@.len(),
            needle@ == seq!['"'] + k@.take(t as int),
        decreases k@.len() - t,
    {
        needle.push(k[t]);
        assert(k@.take(t + 1) =~= k@.take(t as int).push(k@[t as int]));
        t = t + 1;
    }
    needle.push('"');
    needle.push(':');
    assert(k@.take(t as int) =~= k@);
    assert(needle@ =~= key_needle(key@));
    proof {
        crate::text::lemma_find_from_facts(j@, needle@, 0);
    }
    match find_in(j, &needle, 0) {
        None => None,
        Some(i) => {
            assert(crate::text::matches_at(j@, needle@, i as int));
            let jl = j.len();
            let nl = needle.len();
            assert(i + nl <= jl);
            let start = i + nl;
            let p = skip_space(j, start, j.len());
            proof {
                let rest = j@.skip(start as int);
                assert(rest =~= j@.subrange(start as int, j@.len() as int));
                assert(trim_start(rest) =~= j@.skip(p as int));
            }
            Some(p)
        },
    }
}

/// Length of the run of digits and `-` (and `.` when `dot`) at `j[p..]`.
fn num_span_at(j: &Vec<char>, p: usize, dot: bool) -> (n: usize)
    requires
        p <= j@.len(),
    ensures
        n == num_span(j@.skip(p as int), dot),
        p + n <= j@.len(),
{
    let mut i = p;
    while i < j.len() && (('0' <= j[i] && j[i] <= '9') || j[i] == '-' || (dot && j[i] == '.'))
        invariant
            p <= i <= j@.len(),
            num_span(j@.skip(p as int), dot) == (i - p) + num_span(j@.skip(i as int), dot),
        decreases j@.len() - i,
    {
        assert(j@.skip(i as int).drop_first() =~= j@.skip(i + 1));
        i = i + 1;
    }
    i - p
}

pub fn json_array(j: &Vec<char>, key: &str) -> (r: Option<Vec<char>>)
    ensures
        match r {
            Some(v) => json_array_spec(j@, key@) == Some(v@),
            None => json_array_spec(j@, key@) is None,
        },
{
    let p = match value_pos(j, key) {
        Some(p) => p,
        None => return None,
    };
    if p >= j.len() || j[p] != '[' {
        return None;
    }
    let rest = slice_of(j, p, j.len());
    assert(rest@ =~= j@.skip(p as int));
    let close = vec![']'];
    assert(close@ =~= seq![']']);
    proof {
        crate::text::lemma_find_from_facts(rest@, close@, 0);
    }
    match find_in(&rest, &close, 0) {
        Some(e) => {
            assert(e >= 1) by {
                if e == 0 {
                    assert(rest@.subrange(0, 1)[0] == ']');
                }
            }
            Some(slice_of(&rest, 1, e))
        },
        None => None,
    }
}

pub fn json_int(j: &Vec<char>, key: &str) -> (r: Option<i64>)
    ensures
        r == json_int_spec(j@, key@),
{
    let p = match value_pos(j, key) {
        Some(p) => p,
        None => return None,
    };
    let n = num_span_at(j, p, false);
    let jl = j.len();
    assert(p + n <= jl);
    let (a, b) = trim_bounds(j, p, p + n);
    assert(j@.skip(p as int).take(n as int) =~= j@.subrange(p as int, p + n));
    parse_i64_in(j, a, b)
}

pub fn json_micro(j: &Vec<char>, key: &str) -> (r: Option<i64>)
    ensures
        r == json_micro_spec(j@, key@),
{
    let p = match value_pos(j, key) {
        Some(p) => p,
        None => return None,
    };
    let n = num_span_at(j, p, true);
    let jl = j.len();
    assert(p + n <= jl);
    let (a, b) = trim_bounds(j, p, p + n);
    assert(j@.skip(p as int).take(n as int) =~= j@.subrange(p as int, p + n));
    parse_micro_in(j, a, b)
}

pub fn json_bool(j: &Vec<char>, key: &str) -> (r: Option<bool>)
    ensures
        r == json_bool_spec(j@, key@),
{
    let p = match value_pos(j, key) {
        Some(p) => p,
        None => return None,
    };
    let t = chars_of("true");
    let f = chars_of("false");
    if starts_with_at(j, p, &t) {
        Some(true)
    } else if starts_with_at(j, p, &f) {
        Some(false)
    } else {
        None
    }
}

pub fn json_str(j: &Vec<char>, key: &str) -> (r: Option<Vec<char>>)
    ensures
        match r {
            Some(v) => json_str_spec(j@, key@) == Some(v@),
            None => json_str_spec(j@, key@) is None,
        },
{
    let p = match value_pos(j, key) {
        Some(p) => p,
        None => return None,
    };
    if p >= j.len() || j[p] != '"' {
        return None;
    }
    let inner = slice_of(j, p + 1, j.len());
    assert(inner@ =~= j@.skip(p as int).drop_first());
    let quote = vec!['"'];
    assert(quote@ =~= seq!['"']);
    proof {
        crate::text::lemma_find_from_facts(inner@, quote@, 0);
    }
    match find_in(&inner, &quote, 0) {
        Some(e) => {
            let v = slice_of(&inner, 0, e);
            assert(v@ =~= inner@.take(e as int));
            Some(v)
        },
        None => None,
    }
}

/// The integers in a comma-separated list, skipping pieces that are not integers.
fn parse_cores(v: &Vec<char>) -> (r: Vec<i32>)
    ensures
        r@ == parse_core_list(split_on(v@, ',')),
{
    let pieces = split_char(v, ',');
    let ghost ps = split_on(v@, ',');
    let mut out: Vec<i32> = Vec::new();
    let mut i: usize = 0;
    while i < pieces.len()
        invariant
            i <= pieces@.len() == ps.len(),
            ps == split_on(v@, ','),
            forall|t: int| 0 <= t < pieces@.len() ==> #[trigger] pieces@[t]@ == ps[t],
            out@ == parse_core_list(ps.take(i as int)),
        decreases pieces@.len() - i,
    {
        let piece = &pieces[i];
        let (a, b) = trim_bounds(piece, 0, piece.len());
        assert(piece@.subrange(0, piece@.len() as int) =~= piece@);
        let parsed = parse_i32_in(piece, a, b);
        assert(ps.take(i + 1).drop_last() =~= ps.take(i as int));
        assert(ps.take(i + 1).last() == ps[i as int]);
        match parsed {
            Some(x) => out.push(x),
            None => {},
        }
        assert(out@ =~= parse_core_list(ps.take(i + 1)));
        i = i + 1;
    }
    assert(ps.take(i as int) =~= ps);
    out
}

fn int_field(j: &Vec<char>, key: &str, d: i32) -> (r: i32)
    ensures
        r == int_or(j@, key@, d),
{
    match json_int(j, key) {
        Some(v) => v as i32,
        None => d,
    }
}

fn bool_field(j: &Vec<char>, key: &str, d: bool) -> (r: bool)
    ensures
        r == bool_or(j@, key@, d),
{
    match json_bool(j, key) {
        Some(v) => v,
        None => d,
    }
}

fn str_field(j: &Vec<char>, key: &str, d: String) -> (r: String)
    ensures
        r@ == str_or(j@, key@, d@),
{
    match json_str(j, key) {
        Some(v) => string_of(&v, 0, v.len()),
        None => d,
    }
}

/// Reads a configuration from its JSON form; every key that is missing or
/// unreadable keeps its default, so a result is always returned.
pub fn from_json(json: &str) -> (r: Option<SetupConfig>)
    ensures
        r is Some,
        r matches Some(c) ==> c@ == config_from_json(json@),
{
    let j = chars_of(json);
    let d = SetupConfig::default();
    let c = SetupConfig {
        isolated_cores: match json_array(&j, "isolated_cores") {
            Some(v) => parse_cores(&v),
            None => d.isolated_cores,
        },
        housekeeping_core: int_field(&j, "housekeeping_core", d.housekeeping_core),
        disable_frequency_boost: bool_field(&j, "disable_frequency_boost", d.disable_frequency_boost),
        max_cstate: int_field(&j, "max_cstate", d.max_cstate),
        stop_irqbalance: bool_field(&j, "stop_irqbalance", d.stop_irqbalance),
        disable_swap: bool_field(&j, "disable_swap", d.disable_swap),
        isolate_multiuser: bool_field(&j, "isolate_multiuser", d.isolate_multiuser),
        ns_server: str_field(&j, "ns_server", d.ns_server),
        ns_client: str_field(&j, "ns_client", d.ns_client),
        veth_server: str_field(&j, "veth_server", d.veth_server),
        veth_client: str_field(&j, "veth_client", d.veth_client),
        server_ip: str_field(&j, "server_ip", d.server_ip),
        client_ip: str_field(&j, "client_ip", d.client_ip),
        netem_delay_ms: int_field(&j, "netem_delay_ms", d.netem_delay_ms),
        netem_jitter_ms: int_field(&j, "netem_jitter_ms", d.netem_jitter_ms),
        netem_loss_micropct: match json_micro(&j, "netem_loss_pct") {
            Some(v) => v,
            None => d.netem_loss_micropct,
        },
        disable_offloading: bool_field(&j, "disable_offloading", d.disable_offloading),
        server_cores: str_field(&j, "server_cores", d.server_cores),
        client_cores: str_field(&j, "client_cores", d.client_cores),
        rt_priority: int_field(&j, "rt_priority", d.rt_priority),
        disable_aslr: bool_field(&j, "disable_aslr", d.disable_aslr),
        tune_net_buffers: bool_field(&j, "tune_net_buffers", d.tune_net_buffers),
        drop_caches: bool_field(&j, "drop_caches", d.drop_caches),
        stop_timesyncd: bool_field(&j, "stop_timesyncd", d.stop_timesyncd),
        apply_nohz_full: bool_field(&j, "apply_nohz_full", d.apply_nohz_full),
        apply_rcu_nocbs: bool_field(&j, "apply_rcu_nocbs", d.apply_rcu_nocbs),
    };
    assert(c@ =~= config_from_json(json@));
    Some(c)
}

} // verus!
