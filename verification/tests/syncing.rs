//! Tests of the health-sync cycle: majority-network aggregation, the
//! proof-of-work filter, and cancellation.

use iota_client::node::Node;
use iota_client::protocol::{NetworkInfo, ProtocolParameters};
use iota_client::shared::{SharedNetworkInfo, SharedNodeSet};
use iota_client::syncing::{aggregate_sync, ProbeInfo, ProbeOutcome, SyncProcess};

fn probe(url: &str, network: &str, healthy: bool, has_pow: bool) -> ProbeOutcome {
    let mut params = ProtocolParameters::default();
    params.network_name = network.to_owned();
    ProbeOutcome {
        node: Node::new(url.to_owned()),
        info: Some(ProbeInfo {
            is_healthy: healthy,
            network_name: network.to_owned(),
            has_pow_feature: has_pow,
            protocol_parameters: params,
        }),
    }
}

#[test]
fn majority_network_wins_a_sync_cycle() {
    let probes = vec![
        probe("https://a1", "net-a", true, true),
        probe("https://b1", "net-b", true, true),
        probe("https://a2", "net-a", true, true),
        probe("https://a3", "net-a", true, true),
    ];
    let out = aggregate_sync(&probes, true);
    assert_eq!(out.healthy_nodes.len(), 3);
    assert_eq!(out.healthy_nodes[0].url, "https://a1");
    assert_eq!(out.healthy_nodes[1].url, "https://a2");
    assert_eq!(out.healthy_nodes[2].url, "https://a3");
    assert_eq!(out.params.unwrap().network_name, "net-a");
}

#[test]
fn unhealthy_and_failed_probes_are_excluded() {
    let probes = vec![
        probe("https://a1", "net-a", false, true),
        ProbeOutcome { node: Node::new("https://dead".to_owned()), info: None },
        probe("https://a2", "net-a", true, true),
    ];
    let out = aggregate_sync(&probes, true);
    assert_eq!(out.healthy_nodes.len(), 1);
    assert_eq!(out.healthy_nodes[0].url, "https://a2");
}

#[test]
fn remote_pow_requirement_filters_the_healthy_set() {
    let probes = vec![
        probe("https://pow", "net-a", true, true),
        probe("https://nopow", "net-a", true, false),
    ];
    let out = aggregate_sync(&probes, false);
    assert_eq!(out.healthy_nodes.len(), 1);
    assert_eq!(out.healthy_nodes[0].url, "https://pow");
    // With local proof of work, both qualify.
    let probes = vec![
        probe("https://pow", "net-a", true, true),
        probe("https://nopow", "net-a", true, false),
    ];
    let out = aggregate_sync(&probes, true);
    assert_eq!(out.healthy_nodes.len(), 2);
}

#[test]
fn a_cycle_without_healthy_nodes_publishes_an_empty_set() {
    let probes = vec![probe("https://a1", "net-a", false, true)];
    let out = aggregate_sync(&probes, true);
    assert!(out.healthy_nodes.is_empty());
    assert!(out.params.is_none());
}

#[test]
fn ties_keep_the_network_seen_first() {
    let probes = vec![
        probe("https://b1", "net-b", true, true),
        probe("https://a1", "net-a", true, true),
    ];
    let out = aggregate_sync(&probes, true);
    assert_eq!(out.healthy_nodes.len(), 1);
    assert_eq!(out.healthy_nodes[0].url, "https://b1");
    assert_eq!(out.params.unwrap().network_name, "net-b");
}

#[test]
fn a_cycle_publishes_the_tracker_and_caches_parameters() {
    let tracker = SharedNodeSet::new();
    let info = SharedNetworkInfo::new(NetworkInfo::default());
    let mut process = SyncProcess::new();
    let probes = vec![probe("https://a1", "net-a", true, true)];
    process.run_cycle(&tracker, &info, &probes).unwrap();
    assert_eq!(process.write_count, 1);
    let published = tracker.snapshot().unwrap();
    assert_eq!(published.len(), 1);
    assert_eq!(published[0].url, "https://a1");
    let cached = info.read().unwrap();
    assert_eq!(cached.protocol_parameters.network_name, "net-a");
}

#[test]
fn cancellation_stops_all_further_writes() {
    let tracker = SharedNodeSet::new();
    let info = SharedNetworkInfo::new(NetworkInfo::default());
    let mut process = SyncProcess::new();
    let probes = vec![probe("https://a1", "net-a", true, true)];
    process.run_cycle(&tracker, &info, &probes).unwrap();
    assert_eq!(process.write_count, 1);
    process.cancel();
    process.run_cycle(&tracker, &info, &probes).unwrap();
    process.run_cycle(&tracker, &info, &probes).unwrap();
    assert_eq!(process.write_count, 1);
    // The tracker still holds what the last uncancelled cycle published.
    assert_eq!(tracker.snapshot().unwrap().len(), 1);
}
