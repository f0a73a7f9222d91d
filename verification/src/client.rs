//! The client: configuration via a builder, and the read surface over the
//! shared network information and the node pool.

use vstd::prelude::*;
use vstd::string::StringSliceAdditionalSpecFns;
use crate::candidates::has_url;
use crate::error::Error;
use crate::manager::{NodeManager, NodeManagerBuilder};
use crate::node::{Node, NodeAuth};
use crate::protocol::{NetworkInfo, ProtocolParameters, RentStructure, DEFAULT_TIPS_INTERVAL};
use crate::shared::{SharedNetworkInfo, SharedNodeSet};

verus! {

/// The default timeout of an API request, in milliseconds.
pub const DEFAULT_API_TIMEOUT_MS: u64 = 15000;

/// The default timeout of a request that needs remote proof of work, in
/// milliseconds.
pub const DEFAULT_REMOTE_POW_TIMEOUT_MS: u64 = 100000;

/// An instance of the client: the node manager together with the shared
/// network information and the request timeouts.
pub struct Client {
    /// Candidate selection and request dispatch.
    pub node_manager: NodeManager,
    /// The cached network information, written by the sync process.
    pub network_info: SharedNetworkInfo,
    /// Timeout of an ordinary API request, in milliseconds.
    pub api_timeout_ms: u64,
    /// Timeout of a request that needs remote proof of work, in milliseconds.
    pub remote_pow_timeout_ms: u64,
    /// How many workers local proof of work may use.
    pub pow_worker_count: Option<usize>,
}

impl Client {
    /// The pool's quorum threshold stays a percentage.
    pub open spec fn wf(self) -> bool {
        self.node_manager.wf()
    }

    /// The builder that configures a client.
    pub fn builder() -> (b: ClientBuilder)
        ensures
            b.wf(),
            b.api_timeout_ms == DEFAULT_API_TIMEOUT_MS,
            b.remote_pow_timeout_ms == DEFAULT_REMOTE_POW_TIMEOUT_MS,
            b.pow_worker_count is None,
            b.network_info.local_pow,
    {
        ClientBuilder::new()
    }

    /// A snapshot of the network information; another thread may write
    /// between two reads, so nothing relates two snapshots.
    pub fn get_network_info(&self) -> (r: Result<NetworkInfo, Error>)
        ensures
            r is Err ==> r == Err::<NetworkInfo, Error>(Error::PoisonError),
    {
        self.network_info.read()
    }

    /// The protocol parameters of the network the client follows.
    pub fn get_protocol_parameters(&self) -> (r: Result<ProtocolParameters, Error>)
        ensures
            r is Err ==> r == Err::<ProtocolParameters, Error>(Error::PoisonError),
    {
        match self.network_info.read() {
            Ok(info) => Ok(info.protocol_parameters),
            Err(e) => Err(e),
        }
    }

    /// The protocol version the network runs.
    pub fn get_protocol_version(&self) -> (r: Result<u8, Error>)
        ensures
            r is Err ==> r == Err::<u8, Error>(Error::PoisonError),
    {
        match self.network_info.read() {
            Ok(info) => Ok(info.protocol_parameters.protocol_version),
            Err(e) => Err(e),
        }
    }

    /// The network's name.
    pub fn get_network_name(&self) -> (r: Result<String, Error>)
        ensures
            r is Err ==> r == Err::<String, Error>(Error::PoisonError),
    {
        match self.network_info.read() {
            Ok(info) => Ok(info.protocol_parameters.network_name),
            Err(e) => Err(e),
        }
    }

    /// The Bech32 human-readable part of the network's addresses.
    pub fn get_bech32_hrp(&self) -> (r: Result<String, Error>)
        ensures
            r is Err ==> r == Err::<String, Error>(Error::PoisonError),
    {
        match self.network_info.read() {
            Ok(info) => Ok(info.protocol_parameters.bech32_hrp),
            Err(e) => Err(e),
        }
    }

    /// The minimum proof-of-work score the network accepts.
    pub fn get_min_pow_score(&self) -> (r: Result<u32, Error>)
        ensures
            r is Err ==> r == Err::<u32, Error>(Error::PoisonError),
    {
        match self.network_info.read() {
            Ok(info) => Ok(info.protocol_parameters.min_pow_score),
            Err(e) => Err(e),
        }
    }

    /// The below-maximum-depth parameter of the network.
    pub fn get_below_max_depth(&self) -> (r: Result<u8, Error>)
        ensures
            r is Err ==> r == Err::<u8, Error>(Error::PoisonError),
    {
        match self.network_info.read() {
            Ok(info) => Ok(info.protocol_parameters.below_max_depth),
            Err(e) => Err(e),
        }
    }

    /// The rent structure of the network.
    pub fn get_rent_structure(&self) -> (r: Result<RentStructure, Error>)
        ensures
            r is Err ==> r == Err::<RentStructure, Error>(Error::PoisonError),
    {
        match self.network_info.read() {
            Ok(info) => Ok(info.protocol_parameters.rent_structure),
            Err(e) => Err(e),
        }
    }

    /// The network's total token supply.
    pub fn get_token_supply(&self) -> (r: Result<u64, Error>)
        ensures
            r is Err ==> r == Err::<u64, Error>(Error::PoisonError),
    {
        match self.network_info.read() {
            Ok(info) => Ok(info.protocol_parameters.token_supply),
            Err(e) => Err(e),
        }
    }

    /// The tips request interval during proof of work, in seconds; the
    /// default when the shared record is unreadable.
    pub fn get_tips_interval(&self) -> u64 {
        match self.network_info.read() {
            Ok(info) => info.tips_interval,
            Err(_) => DEFAULT_TIPS_INTERVAL,
        }
    }

    /// Whether proof of work is done locally; the default (locally) when the
    /// shared record is unreadable.
    pub fn get_local_pow(&self) -> bool {
        match self.network_info.read() {
            Ok(info) => info.local_pow,
            Err(_) => true,
        }
    }

    /// Whether a node without remote proof of work falls back to local work;
    /// the default (it does) when the shared record is unreadable.
    pub fn get_fallback_to_local_pow(&self) -> bool {
        match self.network_info.read() {
            Ok(info) => info.fallback_to_local_pow,
            Err(_) => true,
        }
    }

    /// The timeout of an ordinary API request, in milliseconds.
    pub fn get_timeout(&self) -> (r: u64)
        ensures
            r == self.api_timeout_ms,
    {
        self.api_timeout_ms
    }

    /// The timeout of a request that needs remote proof of work, in
    /// milliseconds.
    pub fn get_remote_pow_timeout(&self) -> (r: u64)
        ensures
            r == self.remote_pow_timeout_ms,
    {
        self.remote_pow_timeout_ms
    }

    /// One node to talk to: the primary node when set, else the first
    /// configured node, else `HealthyNodePoolEmpty`.
    pub fn get_node(&self) -> (r: Result<Node, Error>)
        ensures
            match self.node_manager.primary_node {
                Some(p) => r == Ok::<Node, Error>(p),
                None => {
                    if self.node_manager.nodes@.len() > 0 {
                        r == Ok::<Node, Error>(self.node_manager.nodes@[0])
                    } else {
                        r == Err::<Node, Error>(Error::HealthyNodePoolEmpty)
                    }
                },
            },
    {
        match &self.node_manager.primary_node {
            Some(p) => Ok(p.clone()),
            None => {
                if self.node_manager.nodes.len() > 0 {
                    Ok(self.node_manager.nodes[0].clone())
                } else {
                    Err(Error::HealthyNodePoolEmpty)
                }
            },
        }
    }

    /// The configured nodes that are not in the current healthy set; when
    /// the health tracker is unreadable, every node counts as healthy.
    pub fn unhealthy_nodes(&self) -> (r: Vec<Node>)
        ensures
            exists|healthy: Seq<Node>|
                r@ == #[trigger] self.node_manager.nodes@.filter(unhealthy_in(healthy)),
    {
        let healthy = match self.node_manager.synced_nodes.snapshot() {
            Ok(v) => v,
            Err(_) => {
                let r: Vec<Node> = Vec::new();
                proof {
                    let all = self.node_manager.nodes@;
                    assert forall|i: int| 0 <= i < all.len() implies #[trigger] has_url(
                        all, all[i].url@,
                    ) by {}
                    lemma_filter_none(all, all);
                    assert(r@ == self.node_manager.nodes@.filter(unhealthy_in(all)));
                }
                return r;
            },
        };
        let mut out: Vec<Node> = Vec::new();
        let n = self.node_manager.nodes.len();
        let mut i: usize = 0;
        while i < n
            invariant
                0 <= i <= n,
                n == self.node_manager.nodes@.len(),
                out@ == self.node_manager.nodes@.take(i as int).filter(unhealthy_in(healthy@)),
            decreases n - i,
        {
            proof {
                reveal(Seq::filter);
                assert(self.node_manager.nodes@.take(i as int + 1).drop_last()
                    =~= self.node_manager.nodes@.take(i as int));
                assert(self.node_manager.nodes@.take(i as int + 1).last()
                    == self.node_manager.nodes@[i as int]);
            }
            if !crate::candidates::contains_url(&healthy, &self.node_manager.nodes[i].url) {
                out.push(self.node_manager.nodes[i].clone());
            }
            i += 1;
        }
        proof {
            assert(self.node_manager.nodes@.take(n as int) =~= self.node_manager.nodes@);
            assert(out@ == self.node_manager.nodes@.filter(unhealthy_in(healthy@)));
        }
        out
    }
}

/// Picks the nodes whose address is missing from `healthy`.
pub open spec fn unhealthy_in(healthy: Seq<Node>) -> spec_fn(Node) -> bool {
    |n: Node| !has_url(healthy, n.url@)
}

/// If every node of `s` has its address in `healthy`, nothing is unhealthy.
proof fn lemma_filter_none(s: Seq<Node>, healthy: Seq<Node>)
    requires
        forall|i: int| 0 <= i < s.len() ==> #[trigger] has_url(healthy, s[i].url@),
    ensures
        s.filter(unhealthy_in(healthy)).len() == 0,
    decreases s.len(),
{
    reveal(Seq::filter);
    if s.len() > 0 {
        lemma_filter_none(s.drop_last(), healthy);
    }
}

/// Builds a client with sensible default values.
pub struct ClientBuilder {
    /// The node manager's configuration.
    pub node_manager_builder: NodeManagerBuilder,
    /// The network information the client starts from.
    pub network_info: NetworkInfo,
    /// Timeout of an ordinary API request, in milliseconds.
    pub api_timeout_ms: u64,
    /// Timeout of a request that needs remote proof of work, in milliseconds.
    pub remote_pow_timeout_ms: u64,
    /// How many workers local proof of work may use.
    pub pow_worker_count: Option<usize>,
}

impl Default for ClientBuilder {
    /// The default configuration.
    fn default() -> (b: Self)
        ensures
            b.wf(),
            b.api_timeout_ms == DEFAULT_API_TIMEOUT_MS,
            b.remote_pow_timeout_ms == DEFAULT_REMOTE_POW_TIMEOUT_MS,
            b.pow_worker_count is None,
    {
        ClientBuilder::new()
    }
}

impl ClientBuilder {
    /// The pool's quorum threshold stays a percentage.
    pub open spec fn wf(self) -> bool {
        self.node_manager_builder.wf()
    }

    /// A builder with the default configuration.
    pub fn new() -> (b: ClientBuilder)
        ensures
            b.wf(),
            b.api_timeout_ms == DEFAULT_API_TIMEOUT_MS,
            b.remote_pow_timeout_ms == DEFAULT_REMOTE_POW_TIMEOUT_MS,
            b.pow_worker_count is None,
            b.network_info.local_pow,
            b.network_info.fallback_to_local_pow,
            b.network_info.tips_interval == DEFAULT_TIPS_INTERVAL,
    {
        ClientBuilder {
            node_manager_builder: NodeManagerBuilder::new(),
            network_info: Default::default(),
            api_timeout_ms: DEFAULT_API_TIMEOUT_MS,
            remote_pow_timeout_ms: DEFAULT_REMOTE_POW_TIMEOUT_MS,
            pow_worker_count: None,
        }
    }

    /// Adds a node by its address; everything else stays as configured.
    pub fn with_node(self, url: &str) -> (r: Result<ClientBuilder, Error>)
        ensures
            r is Ok <==> crate::node::is_valid_url(url.spec_bytes()),
            r is Err ==> r == Err::<ClientBuilder, Error>(Error::InvalidUrl),
            self.wf() ==> (r is Ok ==> r->Ok_0.wf()),
            r is Ok ==> ({
                let nb = r->Ok_0.node_manager_builder;
                &&& r->Ok_0 == (ClientBuilder { node_manager_builder: nb, ..self })
                &&& nb == (NodeManagerBuilder { nodes: nb.nodes, ..self.node_manager_builder })
                &&& nb.nodes@.len() == self.node_manager_builder.nodes@.len() + 1
                &&& nb.nodes@.take(self.node_manager_builder.nodes@.len() as int)
                    == self.node_manager_builder.nodes@
                &&& nb.nodes@.last().url@ == url@
                &&& !nb.nodes@.last().disabled
                &&& nb.nodes@.last().auth is None
            }),
    {
        let mut b = self;
        b.node_manager_builder = match b.node_manager_builder.with_node(url) {
            Ok(nb) => nb,
            Err(e) => {
                return Err(e);
            },
        };
        Ok(b)
    }

    /// Adds a node by its address with optional credentials; everything else
    /// stays as configured.
    pub fn with_node_auth(self, url: &str, auth: Option<NodeAuth>) -> (r: Result<
        ClientBuilder,
        Error,
    >)
        ensures
            r is Ok <==> crate::node::is_valid_url(url.spec_bytes()),
            r is Err ==> r == Err::<ClientBuilder, Error>(Error::InvalidUrl),
            self.wf() ==> (r is Ok ==> r->Ok_0.wf()),
            r is Ok ==> ({
                let nb = r->Ok_0.node_manager_builder;
                &&& r->Ok_0 == (ClientBuilder { node_manager_builder: nb, ..self })
                &&& nb == (NodeManagerBuilder { nodes: nb.nodes, ..self.node_manager_builder })
                &&& nb.nodes@.len() == self.node_manager_builder.nodes@.len() + 1
                &&& nb.nodes@.take(self.node_manager_builder.nodes@.len() as int)
                    == self.node_manager_builder.nodes@
                &&& nb.nodes@.last().url@ == url@
                &&& !nb.nodes@.last().disabled
                &&& nb.nodes@.last().auth == auth
            }),
    {
        let mut b = self;
        b.node_manager_builder = match b.node_manager_builder.with_node_auth(url, auth) {
            Ok(nb) => nb,
            Err(e) => {
                return Err(e);
            },
        };
        Ok(b)
    }

    /// Sets the primary node, with optional credentials; everything else
    /// stays as configured.
    pub fn with_primary_node(self, url: &str, auth: Option<NodeAuth>) -> (r: Result<
        ClientBuilder,
        Error,
    >)
        ensures
            r is Ok <==> crate::node::is_valid_url(url.spec_bytes()),
            r is Err ==> r == Err::<ClientBuilder, Error>(Error::InvalidUrl),
            self.wf() ==> (r is Ok ==> r->Ok_0.wf()),
            r is Ok ==> ({
                let nb = r->Ok_0.node_manager_builder;
                &&& r->Ok_0 == (ClientBuilder { node_manager_builder: nb, ..self })
                &&& nb == (NodeManagerBuilder {
                    primary_node: nb.primary_node,
                    ..self.node_manager_builder
                })
                &&& nb.primary_node is Some
                &&& nb.primary_node->0.url@ == url@
                &&& !nb.primary_node->0.disabled
                &&& nb.primary_node->0.auth == auth
            }),
    {
        let mut b = self;
        b.node_manager_builder = match b.node_manager_builder.with_primary_node(url, auth) {
            Ok(nb) => nb,
            Err(e) => {
                return Err(e);
            },
        };
        Ok(b)
    }

    /// Sets the primary proof-of-work node, with optional credentials;
    /// everything else stays as configured.
    pub fn with_primary_pow_node(self, url: &str, auth: Option<NodeAuth>) -> (r: Result<
        ClientBuilder,
        Error,
    >)
        ensures
            r is Ok <==> crate::node::is_valid_url(url.spec_bytes()),
            r is Err ==> r == Err::<ClientBuilder, Error>(Error::InvalidUrl),
            self.wf() ==> (r is Ok ==> r->Ok_0.wf()),
            r is Ok ==> ({
                let nb = r->Ok_0.node_manager_builder;
                &&& r->Ok_0 == (ClientBuilder { node_manager_builder: nb, ..self })
                &&& nb == (NodeManagerBuilder {
                    primary_pow_node: nb.primary_pow_node,
                    ..self.node_manager_builder
                })
                &&& nb.primary_pow_node is Some
                &&& nb.primary_pow_node->0.url@ == url@
                &&& !nb.primary_pow_node->0.disabled
                &&& nb.primary_pow_node->0.auth == auth
            }),
    {
        let mut b = self;
        b.node_manager_builder = match b.node_manager_builder.with_primary_pow_node(url, auth) {
            Ok(nb) => nb,
            Err(e) => {
                return Err(e);
            },
        };
        Ok(b)
    }

    /// Adds a permanode by its address, with optional credentials; everything
    /// else stays as configured.
    pub fn with_permanode(self, url: &str, auth: Option<NodeAuth>) -> (r: Result<
        ClientBuilder,
        Error,
    >)
        ensures
            r is Ok <==> crate::node::is_valid_url(url.spec_bytes()),
            r is Err ==> r == Err::<ClientBuilder, Error>(Error::InvalidUrl),
            self.wf() ==> (r is Ok ==> r->Ok_0.wf()),
            r is Ok ==> ({
                let nb = r->Ok_0.node_manager_builder;
                &&& r->Ok_0 == (ClientBuilder { node_manager_builder: nb, ..self })
                &&& nb == (NodeManagerBuilder {
                    permanodes: nb.permanodes,
                    ..self.node_manager_builder
                })
                &&& nb.permanodes is Some
                &&& nb.permanodes->0@.len() as int == (match self.node_manager_builder.permanodes {
                    Some(v) => v@.len() as int + 1,
                    None => 1int,
                })
                &&& nb.permanodes->0@.last().url@ == url@
                &&& !nb.permanodes->0@.last().disabled
                &&& nb.permanodes->0@.last().auth == auth
            }),
    {
        let mut b = self;
        b.node_manager_builder = match b.node_manager_builder.with_permanode(url, auth) {
            Ok(nb) => nb,
            Err(e) => {
                return Err(e);
            },
        };
        Ok(b)
    }

    /// Adds a list of nodes by their addresses, in order; everything else
    /// stays as configured.
    pub fn with_nodes(self, urls: &[&str]) -> (r: Result<ClientBuilder, Error>)
        ensures
            r is Err ==> r == Err::<ClientBuilder, Error>(Error::InvalidUrl),
            self.wf() ==> (r is Ok ==> r->Ok_0.wf()),
            r is Ok ==> ({
                let nb = r->Ok_0.node_manager_builder;
                &&& r->Ok_0 == (ClientBuilder { node_manager_builder: nb, ..self })
                &&& nb == (NodeManagerBuilder { nodes: nb.nodes, ..self.node_manager_builder })
                &&& nb.nodes@.len() == self.node_manager_builder.nodes@.len() + urls@.len()
                &&& nb.nodes@.take(self.node_manager_builder.nodes@.len() as int)
                    == self.node_manager_builder.nodes@
            }),
    {
        let ghost orig = self.node_manager_builder.nodes@;
        let mut b = self;
        let n = urls.len();
        let mut i: usize = 0;
        proof {
            assert(b.node_manager_builder.nodes@.take(orig.len() as int) =~= orig);
        }
        while i < n
            invariant
                0 <= i <= n,
                n == urls@.len(),
                orig == self.node_manager_builder.nodes@,
                self.wf() ==> b.wf(),
                b == (ClientBuilder { node_manager_builder: b.node_manager_builder, ..self }),
                b.node_manager_builder == (NodeManagerBuilder {
                    nodes: b.node_manager_builder.nodes,
                    ..self.node_manager_builder
                }),
                b.node_manager_builder.nodes@.len() == orig.len() + i,
                b.node_manager_builder.nodes@.take(orig.len() as int) == orig,
            decreases n - i,
        {
            let ghost prev = b.node_manager_builder.nodes@;
            b = match b.with_node(urls[i]) {
                Ok(nb) => nb,
                Err(e) => {
                    return Err(e);
                },
            };
            proof {
                assert(b.node_manager_builder.nodes@.take(prev.len() as int) == prev);
                assert(b.node_manager_builder.nodes@.take(orig.len() as int) =~= orig);
            }
            i += 1;
        }
        Ok(b)
    }

    /// Sets the sync interval, in milliseconds; everything else stays as
    /// configured.
    pub fn with_node_sync_interval(self, interval_ms: u64) -> (b: ClientBuilder)
        ensures
            b == (ClientBuilder { node_manager_builder: b.node_manager_builder, ..self }),
            b.node_manager_builder == (NodeManagerBuilder {
                node_sync_interval_ms: interval_ms,
                ..self.node_manager_builder
            }),
            self.wf() ==> b.wf(),
    {
        let mut b = self;
        b.node_manager_builder = b.node_manager_builder.with_node_sync_interval(interval_ms);
        b
    }

    /// Disables the node-sync process: every node then counts as usable;
    /// everything else stays as configured.
    pub fn with_node_sync_disabled(self) -> (b: ClientBuilder)
        ensures
            b == (ClientBuilder { node_manager_builder: b.node_manager_builder, ..self }),
            b.node_manager_builder == (NodeManagerBuilder {
                node_sync_enabled: false,
                ..self.node_manager_builder
            }),
            self.wf() ==> b.wf(),
    {
        let mut b = self;
        b.node_manager_builder = b.node_manager_builder.with_node_sync_disabled();
        b
    }

    /// Turns quorum voting on or off; everything else stays as configured.
    pub fn with_quorum(self, quorum: bool) -> (b: ClientBuilder)
        ensures
            b == (ClientBuilder { node_manager_builder: b.node_manager_builder, ..self }),
            b.node_manager_builder == (NodeManagerBuilder {
                quorum,
                ..self.node_manager_builder
            }),
            self.wf() ==> b.wf(),
    {
        let mut b = self;
        b.node_manager_builder = b.node_manager_builder.with_quorum(quorum);
        b
    }

    /// Sets how many nodes take part in a quorum read; everything else stays
    /// as configured.
    pub fn with_min_quorum_size(self, min_quorum_size: usize) -> (b: ClientBuilder)
        ensures
            b == (ClientBuilder { node_manager_builder: b.node_manager_builder, ..self }),
            b.node_manager_builder == (NodeManagerBuilder {
                min_quorum_size,
                ..self.node_manager_builder
            }),
            self.wf() ==> b.wf(),
    {
        let mut b = self;
        b.node_manager_builder = b.node_manager_builder.with_min_quorum_size(min_quorum_size);
        b
    }

    /// Sets the agreement threshold, clamped to 100: no configuration can
    /// produce a pool whose threshold exceeds 100. Everything else stays as
    /// configured.
    pub fn with_quorum_threshold(self, threshold: usize) -> (b: ClientBuilder)
        ensures
            b == (ClientBuilder { node_manager_builder: b.node_manager_builder, ..self }),
            b.node_manager_builder == (NodeManagerBuilder {
                quorum_threshold: b.node_manager_builder.quorum_threshold,
                ..self.node_manager_builder
            }),
            b.node_manager_builder.quorum_threshold == (if threshold > 100 {
                100int
            } else {
                threshold as int
            }),
            b.node_manager_builder.quorum_threshold <= 100,
            b.wf(),
    {
        let mut b = self;
        b.node_manager_builder = b.node_manager_builder.with_quorum_threshold(threshold);
        b
    }

    /// Sets whether proof of work is done locally or remotely; everything
    /// else stays as configured.
    pub fn with_local_pow(self, local: bool) -> (b: ClientBuilder)
        ensures
            b == (ClientBuilder { network_info: b.network_info, ..self }),
            b.network_info == (NetworkInfo { local_pow: local, ..self.network_info }),
            self.wf() ==> b.wf(),
    {
        let mut b = self;
        b.network_info.local_pow = local;
        b
    }

    /// Sets how many workers local proof of work may use; everything else
    /// stays as configured.
    pub fn with_pow_worker_count(self, worker_count: usize) -> (b: ClientBuilder)
        ensures
            b == (ClientBuilder { pow_worker_count: Some(worker_count), ..self }),
            self.wf() ==> b.wf(),
    {
        let mut b = self;
        b.pow_worker_count = Some(worker_count);
        b
    }

    /// Sets whether to fall back to local proof of work when a node cannot
    /// do it remotely; everything else stays as configured.
    pub fn with_fallback_to_local_pow(self, fallback_to_local_pow: bool) -> (b: ClientBuilder)
        ensures
            b == (ClientBuilder { network_info: b.network_info, ..self }),
            b.network_info == (NetworkInfo {
                fallback_to_local_pow,
                ..self.network_info
            }),
            self.wf() ==> b.wf(),
    {
        let mut b = self;
        b.network_info.fallback_to_local_pow = fallback_to_local_pow;
        b
    }

    /// Sets after how many seconds new tips are requested during proof of
    /// work; everything else stays as configured.
    pub fn with_tips_interval(self, tips_interval: u64) -> (b: ClientBuilder)
        ensures
            b == (ClientBuilder { network_info: b.network_info, ..self }),
            b.network_info == (NetworkInfo { tips_interval, ..self.network_info }),
            self.wf() ==> b.wf(),
    {
        let mut b = self;
        b.network_info.tips_interval = tips_interval;
        b
    }

    /// Sets the default request timeout, in milliseconds; everything else
    /// stays as configured.
    pub fn with_api_timeout(self, timeout_ms: u64) -> (b: ClientBuilder)
        ensures
            b == (ClientBuilder { api_timeout_ms: timeout_ms, ..self }),
            self.wf() ==> b.wf(),
    {
        let mut b = self;
        b.api_timeout_ms = timeout_ms;
        b
    }

    /// Sets the timeout of requests that need remote proof of work, in
    /// milliseconds; everything else stays as configured.
    pub fn with_remote_pow_timeout(self, timeout_ms: u64) -> (b: ClientBuilder)
        ensures
            b == (ClientBuilder { remote_pow_timeout_ms: timeout_ms, ..self }),
            self.wf() ==> b.wf(),
    {
        let mut b = self;
        b.remote_pow_timeout_ms = timeout_ms;
        b
    }

    /// Builds the client around a fresh, empty health tracker; the first
    /// sync cycle, run before the client is handed out, fills it. The
    /// constructed pool's quorum threshold is a percentage, whatever was
    /// asked for during configuration.
    pub fn finish(self) -> (r: Result<Client, Error>)
        requires
            self.wf(),
        ensures
            r is Ok ==> ({
                let c = r->Ok_0;
                &&& c.wf()
                &&& c.node_manager.quorum.quorum_threshold <= 100
                &&& c.node_manager.primary_node == self.node_manager_builder.primary_node
                &&& c.node_manager.primary_pow_node == self.node_manager_builder.primary_pow_node
                &&& c.node_manager.nodes == self.node_manager_builder.nodes
                &&& c.node_manager.permanodes == self.node_manager_builder.permanodes
                &&& c.node_manager.node_sync_enabled == self.node_manager_builder.node_sync_enabled
                &&& c.node_manager.quorum.quorum_enabled == self.node_manager_builder.quorum
                &&& c.node_manager.quorum.min_quorum_size
                    == self.node_manager_builder.min_quorum_size
                &&& c.node_manager.quorum.quorum_threshold
                    == self.node_manager_builder.quorum_threshold
                &&& c.api_timeout_ms == self.api_timeout_ms
                &&& c.remote_pow_timeout_ms == self.remote_pow_timeout_ms
                &&& c.pow_worker_count == self.pow_worker_count
            }),
            r is Ok,
    {
        let healthy_nodes = SharedNodeSet::new();
        let network_info = SharedNetworkInfo::new(self.network_info);
        Ok(Client {
            node_manager: self.node_manager_builder.build(healthy_nodes),
            network_info,
            api_timeout_ms: self.api_timeout_ms,
            remote_pow_timeout_ms: self.remote_pow_timeout_ms,
            pow_worker_count: self.pow_worker_count,
        })
    }
}

} // verus!
