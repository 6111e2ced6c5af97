use ubenchmon::config::{from_json, to_json, SetupConfig};

fn same(a: &SetupConfig, b: &SetupConfig) -> bool {
    format!("{a:?}") == format!("{b:?}")
}

#[test]
fn default_config_follows_the_methodology() {
    let c = SetupConfig::default();
    assert_eq!(c.isolated_cores, vec![2, 3, 4, 5]);
    assert_eq!(c.housekeeping_core, 0);
    assert_eq!(c.ns_server, "ns_server");
    assert_eq!(c.veth_client, "veth-cli");
    assert_eq!(c.server_ip, "10.0.0.1/24");
    assert_eq!(c.netem_delay_ms, 25);
    assert_eq!(c.netem_jitter_ms, 5);
    assert_eq!(c.netem_loss_micropct, 100_000);
    assert_eq!(c.rt_priority, 50);
    assert!(c.apply_nohz_full && c.apply_rcu_nocbs);
}

#[test]
fn to_json_writes_one_member_per_line() {
    let j = to_json(&SetupConfig::default());
    assert!(j.starts_with("{\n\"isolated_cores\": [2, 3, 4, 5],\n\"housekeeping_core\": 0,\n"));
    assert!(j.contains("\n\"ns_server\": \"ns_server\",\n"));
    assert!(j.contains("\n\"netem_loss_pct\": 0.1,\n"));
    assert!(j.ends_with("\"apply_rcu_nocbs\": true\n}"));
    assert_eq!(j.lines().count(), 28);
}

#[test]
fn stored_config_reads_back() {
    let d = SetupConfig::default();
    let back = from_json(&to_json(&d)).unwrap();
    assert!(same(&back, &d));

    let mut c = SetupConfig::default();
    c.isolated_cores = vec![];
    c.housekeeping_core = -3;
    c.disable_swap = false;
    c.ns_client = String::new();
    c.server_ip = "192.168.1.7/16".to_owned();
    c.netem_loss_micropct = -2_500_001;
    c.server_cores = "2,4,6".to_owned();
    c.rt_priority = i32::MIN;
    c.apply_rcu_nocbs = false;
    let back = from_json(&to_json(&c)).unwrap();
    assert!(same(&back, &c));

    c.isolated_cores = vec![7];
    c.netem_loss_micropct = 1;
    let back = from_json(&to_json(&c)).unwrap();
    assert!(same(&back, &c));
}

#[test]
fn missing_keys_keep_their_defaults() {
    let c = from_json("{\"netem_delay_ms\": 40, \"disable_swap\": false, \"ns_server\": \"srv\"}").unwrap();
    assert_eq!(c.netem_delay_ms, 40);
    assert!(!c.disable_swap);
    assert_eq!(c.ns_server, "srv");
    assert_eq!(c.netem_jitter_ms, 5);
    assert_eq!(c.isolated_cores, vec![2, 3, 4, 5]);
    let e = from_json("").unwrap();
    assert!(same(&e, &SetupConfig::default()));
}

#[test]
fn decimals_are_read_in_millionths() {
    let c = from_json("{\"netem_loss_pct\": 2.5}").unwrap();
    assert_eq!(c.netem_loss_micropct, 2_500_000);
    let c = from_json("{\"netem_loss_pct\": 0.0000019}").unwrap();
    assert_eq!(c.netem_loss_micropct, 1);
    let c = from_json("{\"isolated_cores\": [ 1, x, 3 ]}").unwrap();
    assert_eq!(c.isolated_cores, vec![1, 3]);
}
