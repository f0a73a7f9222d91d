//! Tests of candidate selection, quorum dispatch and the client builder.

use iota_client::candidates::assemble_candidates;
use iota_client::client::{Client, ClientBuilder};
use iota_client::dispatch::{
    dispatch_bytes_sequential, dispatch_get_parallel, dispatch_get_sequential,
    dispatch_post_sequential, ByteReply, GetSuccess, NodeReply, PostReply,
};
use iota_client::error::Error;
use iota_client::manager::{NodeManager, NodeManagerBuilder};
use iota_client::node::{validate_url, Node};
use iota_client::quorum::{QuorumParams, VoteTally};
use iota_client::shared::SharedNodeSet;

fn node(url: &str) -> Node {
    Node::new(url.to_owned())
}

fn disabled_node(url: &str) -> Node {
    let mut n = Node::new(url.to_owned());
    n.disabled = true;
    n
}

fn reply_ok(body: &str) -> NodeReply {
    NodeReply::Response { status: 200, body: Some(body.to_owned()) }
}

#[test]
fn url_validation() {
    assert!(validate_url("https://example.org").is_ok());
    assert!(validate_url("http://n1.example").is_ok());
    assert!(matches!(validate_url("example.org"), Err(Error::InvalidUrl)));
    assert!(matches!(validate_url("://nohost"), Err(Error::InvalidUrl)));
    assert!(matches!(validate_url("https://"), Err(Error::InvalidUrl)));
}

#[test]
fn primary_node_heads_candidate_list() {
    let permanodes: Vec<Node> = Vec::new();
    let pool = vec![node("https://n1"), node("https://n2")];
    let r = assemble_candidates(
        &permanodes,
        false,
        &None,
        false,
        &Some(node("https://primary")),
        &pool,
        "api/core/v2/info",
        None,
    )
    .unwrap();
    assert_eq!(r.len(), 3);
    assert_eq!(r[0].url, "https://primary");
    assert_eq!(r[0].path, "api/core/v2/info");
    assert!(r[0].query.is_none());
}

#[test]
fn disabled_nodes_never_selected() {
    let permanodes: Vec<Node> = Vec::new();
    let pool = vec![disabled_node("https://n1"), node("https://n2")];
    let r = assemble_candidates(
        &permanodes,
        false,
        &None,
        false,
        &Some(disabled_node("https://primary")),
        &pool,
        "p",
        None,
    )
    .unwrap();
    assert_eq!(r.len(), 1);
    assert_eq!(r[0].url, "https://n2");
}

#[test]
fn empty_disabled_pool_is_an_error() {
    let permanodes: Vec<Node> = Vec::new();
    let pool = vec![disabled_node("https://n1")];
    let r = assemble_candidates(&permanodes, false, &None, false, &None, &pool, "p", None);
    assert!(matches!(r, Err(Error::SyncedNodePoolEmpty)));
}

#[test]
fn get_nodes_on_empty_all_disabled_set() {
    let mut b = NodeManager::builder();
    b = b.with_node("https://n1").unwrap();
    b.nodes[0].disabled = true;
    b = b.with_node_sync_disabled();
    let manager = b.build(SharedNodeSet::new());
    let r = manager.get_nodes("p", None, false, false);
    assert!(matches!(r, Err(Error::SyncedNodePoolEmpty)));
}

#[test]
fn candidates_are_deduplicated_by_address() {
    let permanodes = vec![node("https://n1")];
    let pool = vec![node("https://n1"), node("https://n2")];
    let r = assemble_candidates(
        &permanodes,
        true,
        &Some(node("https://n1")),
        true,
        &Some(node("https://n1")),
        &pool,
        "p",
        Some("q=1"),
    )
    .unwrap();
    assert_eq!(r.len(), 2);
    assert_eq!(r[0].url, "https://n1");
    assert_eq!(r[1].url, "https://n2");
    assert_eq!(r[0].query.as_deref(), Some("q=1"));
}

#[test]
fn permanodes_head_the_list_for_block_queries() {
    let permanodes = vec![node("https://perma")];
    let pool = vec![node("https://n1")];
    let r = assemble_candidates(
        &permanodes,
        false,
        &None,
        false,
        &Some(node("https://primary")),
        &pool,
        "api/core/v2/blocks",
        Some("id=5"),
    );
    // The caller passes the permanode preference computed from the path and
    // query; the manager's get_nodes does so itself.
    assert!(r.is_ok());
    let mut b = NodeManager::builder();
    b = b.with_permanode("https://perma", None).unwrap();
    b = b.with_primary_node("https://primary", None).unwrap();
    b = b.with_node("https://n1").unwrap();
    b = b.with_node_sync_disabled();
    let manager = b.build(SharedNodeSet::new());
    let r = manager.get_nodes("api/core/v2/blocks", Some("id=5"), false, false).unwrap();
    assert_eq!(r[0].url, "https://perma");
    assert_eq!(r[1].url, "https://primary");
}

#[test]
fn quorum_pool_size_is_checked_before_dispatch() {
    let mut b = NodeManager::builder();
    b = b.with_node("https://n1").unwrap();
    b = b.with_node_sync_disabled();
    b = b.with_quorum(true);
    b = b.with_min_quorum_size(3);
    b = b.with_quorum_threshold(67);
    let manager = b.build(SharedNodeSet::new());
    let r = manager.prepare_get_request("p", None, true, false);
    assert!(matches!(
        r,
        Err(Error::QuorumPoolSizeError { available_nodes: 1, minimum_threshold: 3 })
    ));
}

#[test]
fn sequential_quorum_two_of_three_agreeing_wins() {
    let params = QuorumParams { quorum_enabled: true, min_quorum_size: 3, quorum_threshold: 67 };
    let candidates = vec![node("https://n1"), node("https://n2"), node("https://n3")];
    let replies = vec![reply_ok("value-a"), reply_ok("value-a"), reply_ok("value-b")];
    let r = dispatch_get_sequential(&params, true, false, false, &candidates, replies).unwrap();
    match r {
        GetSuccess::Value(v) => assert_eq!(v, "value-a"),
        _ => panic!("expected a plain value"),
    }
}

#[test]
fn sequential_quorum_three_way_split_misses_threshold() {
    let params = QuorumParams { quorum_enabled: true, min_quorum_size: 3, quorum_threshold: 67 };
    let candidates = vec![node("https://n1"), node("https://n2"), node("https://n3")];
    let replies = vec![reply_ok("value-a"), reply_ok("value-b"), reply_ok("value-c")];
    let r = dispatch_get_sequential(&params, true, false, false, &candidates, replies);
    assert!(matches!(
        r,
        Err(Error::QuorumThresholdError { quorum_size: 1, minimum_threshold: 3 })
    ));
}

#[test]
fn query_requests_never_enforce_quorum() {
    let params = QuorumParams { quorum_enabled: true, min_quorum_size: 3, quorum_threshold: 100 };
    let candidates = vec![node("https://n1"), node("https://n2"), node("https://n3")];
    // With a query string the first success is accepted outright.
    let replies = vec![
        reply_ok("history-short"),
        reply_ok("history-long"),
        reply_ok("history-long"),
    ];
    let r = dispatch_get_sequential(&params, true, true, false, &candidates, replies).unwrap();
    match r {
        GetSuccess::Value(v) => assert_eq!(v, "history-short"),
        _ => panic!("expected a plain value"),
    }
}

#[test]
fn quorum_disabled_accepts_first_success() {
    let params = QuorumParams { quorum_enabled: false, min_quorum_size: 3, quorum_threshold: 66 };
    let candidates = vec![node("https://n1"), node("https://n2")];
    let replies = vec![
        NodeReply::TransportError { message: "connection refused".to_owned() },
        reply_ok("answer"),
    ];
    let r = dispatch_get_sequential(&params, true, false, false, &candidates, replies).unwrap();
    match r {
        GetSuccess::Value(v) => assert_eq!(v, "answer"),
        _ => panic!("expected a plain value"),
    }
}

#[test]
fn node_info_first_healthy_answer_wins_with_url() {
    let params = QuorumParams { quorum_enabled: true, min_quorum_size: 2, quorum_threshold: 66 };
    let candidates = vec![node("https://n1"), node("https://n2")];
    let replies = vec![
        NodeReply::Response { status: 500, body: Some("overloaded".to_owned()) },
        reply_ok("info-body"),
    ];
    let r = dispatch_get_sequential(&params, false, false, true, &candidates, replies).unwrap();
    match r {
        GetSuccess::ValueFromNode { body, url } => {
            assert_eq!(body, "info-body");
            assert_eq!(url, "https://n2");
        },
        _ => panic!("expected a value with its node"),
    }
}

#[test]
fn exhausted_candidates_surface_the_last_error() {
    let params = QuorumParams { quorum_enabled: false, min_quorum_size: 3, quorum_threshold: 66 };
    let candidates = vec![node("https://n1"), node("https://n2")];
    let replies = vec![
        NodeReply::TransportError { message: "early".to_owned() },
        NodeReply::NotFound,
    ];
    let r = dispatch_get_sequential(&params, true, false, false, &candidates, replies);
    assert!(matches!(r, Err(Error::NotFound)));
}

#[test]
fn parallel_tally_resolves_majority() {
    let params = QuorumParams { quorum_enabled: true, min_quorum_size: 3, quorum_threshold: 67 };
    let replies = vec![reply_ok("value-a"), reply_ok("value-b"), reply_ok("value-a")];
    let r = dispatch_get_parallel(&params, true, false, replies).unwrap();
    match r {
        GetSuccess::Value(v) => assert_eq!(v, "value-a"),
        _ => panic!("expected a plain value"),
    }
}

#[test]
fn vote_tally_breaks_ties_by_first_seen() {
    let mut t = VoteTally::new();
    t.record("value-b".to_owned());
    t.record("value-a".to_owned());
    let best = t.best().unwrap();
    assert_eq!(best.0, "value-b");
    assert_eq!(best.1, 1);
    t.record("value-a".to_owned());
    let best = t.best().unwrap();
    assert_eq!(best.0, "value-a");
    assert_eq!(best.1, 2);
}

#[test]
fn bytes_first_success_returns_raw_bytes() {
    let replies = vec![
        ByteReply::Response { status: 404, body: vec![1, 2], text: Some("not found".to_owned()) },
        ByteReply::Response { status: 200, body: vec![9, 8, 7], text: None },
    ];
    let r = dispatch_bytes_sequential(replies).unwrap();
    assert_eq!(r, vec![9, 8, 7]);
}

#[test]
fn bytes_non_utf8_error_body_is_a_hard_error() {
    let replies = vec![
        ByteReply::Response { status: 500, body: vec![0xff], text: None },
        ByteReply::Response { status: 200, body: vec![1], text: None },
    ];
    let r = dispatch_bytes_sequential(replies);
    match r {
        Err(Error::NodeError(m)) => assert_eq!(m, "Non UTF8 node response"),
        _ => panic!("expected a hard error"),
    }
}

#[test]
fn bytes_exhausted_without_answer_is_generic() {
    let replies = vec![ByteReply::BodyUnreadable];
    let r = dispatch_bytes_sequential(replies);
    match r {
        Err(Error::NodeError(m)) => assert_eq!(m, "Couldn't get a result from any node"),
        _ => panic!("expected the generic failure"),
    }
}

#[test]
fn post_first_created_answer_wins() {
    let replies = vec![
        PostReply::Response {
            status: 500,
            body: None,
            text: Some("rejected".to_owned()),
        },
        PostReply::Response { status: 201, body: Some("stored".to_owned()), text: None },
    ];
    let r = dispatch_post_sequential(replies).unwrap();
    assert_eq!(r, "stored");
}

#[test]
fn post_decode_failure_is_remembered() {
    let replies = vec![PostReply::Response { status: 200, body: None, text: None }];
    let r = dispatch_post_sequential(replies);
    assert!(matches!(r, Err(Error::JsonDecodeError)));
}

#[test]
fn quorum_threshold_is_clamped_at_configuration() {
    let b = ClientBuilder::new().with_quorum_threshold(150);
    assert_eq!(b.node_manager_builder.quorum_threshold, 100);
    let b = b.with_quorum_threshold(66);
    assert_eq!(b.node_manager_builder.quorum_threshold, 66);
    let client = b.with_node_sync_disabled().finish().unwrap();
    assert!(client.node_manager.quorum.quorum_threshold <= 100);
}

#[test]
fn prepare_get_produces_candidates_with_a_fresh_dispatch() {
    let mut b = NodeManager::builder();
    b = b.with_primary_node("https://primary", None).unwrap();
    b = b.with_node("https://n1").unwrap();
    b = b.with_node_sync_disabled();
    b = b.with_quorum(true);
    b = b.with_min_quorum_size(2);
    b = b.with_quorum_threshold(66);
    let manager = b.build(SharedNodeSet::new());
    let (candidates, mut dispatch) = manager
        .prepare_get_request("api/core/v2/tips", None, true, false)
        .unwrap();
    assert_eq!(candidates.len(), 2);
    assert_eq!(candidates[0].url, "https://primary");
    assert_eq!(candidates[0].path, "api/core/v2/tips");
    assert_eq!(dispatch.votes_total(), 0);
    // Both candidates agree: the quorum read resolves to their value.
    let mut outcome = None;
    for node in &candidates {
        if let Some(result) = dispatch.step(node, reply_ok("tip-set")) {
            outcome = Some(result);
            break;
        }
    }
    let outcome = match outcome {
        Some(r) => r,
        None => dispatch.finish(),
    };
    match outcome.unwrap() {
        GetSuccess::Value(v) => assert_eq!(v, "tip-set"),
        _ => panic!("expected a plain value"),
    }
}

#[test]
fn builder_setters_keep_the_rest_of_the_configuration() {
    let b = ClientBuilder::new()
        .with_api_timeout(5000)
        .with_quorum(true)
        .with_min_quorum_size(5)
        .with_quorum_threshold(80)
        .with_local_pow(false)
        .with_tips_interval(42);
    assert_eq!(b.api_timeout_ms, 5000);
    assert!(b.node_manager_builder.quorum);
    assert_eq!(b.node_manager_builder.min_quorum_size, 5);
    assert_eq!(b.node_manager_builder.quorum_threshold, 80);
    assert!(!b.network_info.local_pow);
    assert_eq!(b.network_info.tips_interval, 42);
    // Each setter left everything else standing.
    assert!(b.node_manager_builder.node_sync_enabled);
    assert!(b.network_info.fallback_to_local_pow);
    assert_eq!(b.remote_pow_timeout_ms, iota_client::client::DEFAULT_REMOTE_POW_TIMEOUT_MS);
    assert!(b.pow_worker_count.is_none());
}

#[test]
fn client_defaults_and_getters() {
    let client = Client::builder()
        .with_node("https://n1")
        .unwrap()
        .with_local_pow(false)
        .with_tips_interval(30)
        .with_api_timeout(5000)
        .finish()
        .unwrap();
    assert_eq!(client.get_timeout(), 5000);
    assert!(!client.get_local_pow());
    assert!(client.get_fallback_to_local_pow());
    assert_eq!(client.get_tips_interval(), 30);
    let info = client.get_network_info().unwrap();
    assert!(!info.local_pow);
    let n = client.get_node().unwrap();
    assert_eq!(n.url, "https://n1");
}

#[test]
fn get_node_without_any_node_fails() {
    let client = Client::builder().finish().unwrap();
    assert!(matches!(client.get_node(), Err(Error::HealthyNodePoolEmpty)));
}

#[test]
fn synced_pool_feeds_candidates_when_syncing() {
    let mut b = NodeManager::builder();
    b = b.with_node("https://n1").unwrap();
    let tracker = SharedNodeSet::new();
    let manager = b.build(tracker.handle());
    // Sync is enabled and the tracker is still empty: no candidates.
    let r = manager.get_nodes("p", None, false, false);
    assert!(matches!(r, Err(Error::SyncedNodePoolEmpty)));
    // After the tracker is filled, the same request succeeds.
    tracker.replace(vec![node("https://healthy")]).unwrap();
    let r = manager.get_nodes("p", None, false, false).unwrap();
    assert_eq!(r.len(), 1);
    assert_eq!(r[0].url, "https://healthy");
}

#[test]
fn unhealthy_nodes_are_the_complement_of_the_tracker() {
    let mut b = ClientBuilder::new();
    b = b.with_node("https://n1").unwrap();
    b = b.with_node("https://n2").unwrap();
    let client = b.finish().unwrap();
    client.node_manager.synced_nodes.replace(vec![node("https://n1")]).unwrap();
    let unhealthy = client.unhealthy_nodes();
    assert_eq!(unhealthy.len(), 1);
    assert_eq!(unhealthy[0].url, "https://n2");
}
