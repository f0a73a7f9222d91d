//! The node manager: the configured node pool, per-request candidate
//! selection, and the entry points that set up a dispatch.

use vstd::prelude::*;
use vstd::string::StringSliceAdditionalSpecFns;
use crate::candidates::{assemble_candidates, candidates_rel, enabled, query_view, raw_candidates, stamped};
use crate::dispatch::GetDispatch;
use crate::error::Error;
use crate::node::{clone_nodes, str_eq, validate_url, Node, NodeAuth};
use crate::quorum::QuorumParams;
use crate::shared::SharedNodeSet;

verus! {

/// The request path that fetches a block by its identifier; with a query
/// present it prefers permanodes, which keep full history.
pub open spec fn is_block_fetch_path(path: Seq<char>) -> bool {
    path == "api/core/v2/blocks"@
}

/// The node-information endpoint: answered by the first healthy node, exempt
/// from the vote tally, and returned together with the answering node.
pub open spec fn is_node_info_path(path: Seq<char>) -> bool {
    path == "api/core/v2/info"@
}

/// Permanodes head the candidate list when the caller prefers them, or when
/// fetching a block by id with a query string present.
pub open spec fn wants_permanodes(prefer_permanode: bool, path: Seq<char>, query: Option<Seq<char>>) -> bool {
    prefer_permanode || (is_block_fetch_path(path) && query is Some)
}

/// A write prefers the primary PoW node exactly when proof of work is not
/// done locally.
pub open spec fn pow_preference(local_pow: bool) -> bool {
    !local_pow
}

/// The node manager selects nodes for each request until a result is
/// returned, and, when quorum is enabled, has some endpoints queried on
/// several nodes so their answers can be compared.
pub struct NodeManager {
    /// The distinguished first-choice node.
    pub primary_node: Option<Node>,
    /// The node preferred for requests that need remote proof of work.
    pub primary_pow_node: Option<Node>,
    /// The general configured node set.
    pub nodes: Vec<Node>,
    /// Nodes retaining full history, preferred for historical lookups.
    pub permanodes: Option<Vec<Node>>,
    /// Whether the background sync process feeds the health tracker.
    pub node_sync_enabled: bool,
    /// How long the sync process sleeps between cycles, in milliseconds.
    pub node_sync_interval_ms: u64,
    /// The health tracker: the healthy set the sync process maintains.
    pub synced_nodes: SharedNodeSet,
    /// The quorum configuration.
    pub quorum: QuorumParams,
}

impl NodeManager {
    /// The threshold is a percentage: configuration clamps it to 100.
    pub open spec fn wf(self) -> bool {
        self.quorum.wf()
    }

    /// The configured permanodes, or nothing.
    pub open spec fn permanode_seq(self) -> Seq<Node> {
        match self.permanodes {
            Some(v) => v@,
            None => Seq::<Node>::empty(),
        }
    }

    /// What preparing a GET yields over a given pool. With no enabled
    /// candidate, exactly `SyncedNodePoolEmpty`. With quorum configured and
    /// required and fewer candidates than `min_quorum_size`, exactly
    /// `QuorumPoolSizeError` naming the produced list's length. Otherwise
    /// success: the stamped candidate list of `candidates_rel`, paired with
    /// a fresh dispatch carrying this request's quorum flags.
    pub open spec fn prepare_get_rel(
        self,
        use_perma: bool,
        pool: Seq<Node>,
        path: Seq<char>,
        query: Option<Seq<char>>,
        need_quorum: bool,
        r: Result<(Vec<Node>, GetDispatch), Error>,
    ) -> bool {
        let kept = enabled(
            raw_candidates(
                self.permanode_seq(), use_perma, self.primary_pow_node, false, self.primary_node,
                pool,
            ),
        );
        if kept.len() == 0 {
            r == Err::<(Vec<Node>, GetDispatch), Error>(Error::SyncedNodePoolEmpty)
        } else if self.quorum.quorum_enabled && need_quorum && kept.len()
            < self.quorum.min_quorum_size {
            r == Err::<(Vec<Node>, GetDispatch), Error>(Error::QuorumPoolSizeError {
                available_nodes: kept.len() as usize,
                minimum_threshold: self.quorum.min_quorum_size,
            })
        } else {
            &&& r is Ok
            &&& stamped(r->Ok_0.0@, kept, path, query)
            &&& ({
                let d = r->Ok_0.1;
                &&& d.params == self.quorum
                &&& d.need_quorum == need_quorum
                &&& d.has_query == (query is Some)
                &&& d.node_info == is_node_info_path(path)
                &&& d.tally.entries_view() == Seq::<(String, usize)>::empty()
                &&& d.tally.total_spec() == 0
                &&& d.last_error is None
                &&& d.wf()
            })
        }
    }

    /// What preparing a POST yields over a given pool. With no enabled
    /// candidate, exactly `SyncedNodePoolEmpty`; otherwise success with the
    /// stamped candidate list of `candidates_rel`, which is never empty.
    pub open spec fn prepare_post_rel(
        self,
        use_pow: bool,
        pool: Seq<Node>,
        path: Seq<char>,
        r: Result<Vec<Node>, Error>,
    ) -> bool {
        let kept = enabled(
            raw_candidates(
                self.permanode_seq(), false, self.primary_pow_node, use_pow, self.primary_node,
                pool,
            ),
        );
        if kept.len() == 0 {
            r == Err::<Vec<Node>, Error>(Error::SyncedNodePoolEmpty)
        } else {
            r is Ok && stamped(r->Ok_0@, kept, path, None)
        }
    }

    /// A builder with the default configuration.
    pub fn builder() -> (b: NodeManagerBuilder)
        ensures
            b.primary_node is None,
            b.primary_pow_node is None,
            b.nodes@ == Seq::<Node>::empty(),
            b.permanodes is None,
            b.node_sync_enabled,
            b.node_sync_interval_ms == DEFAULT_NODE_SYNC_INTERVAL_MS,
            !b.quorum,
            b.min_quorum_size == DEFAULT_MIN_QUORUM_SIZE,
            b.quorum_threshold == DEFAULT_QUORUM_THRESHOLD,
            b.wf(),
    {
        NodeManagerBuilder::new()
    }

    /// Builds the per-request candidate list: permanodes first when preferred
    /// (or when fetching a block by id with a query), then the primary PoW
    /// node when requested, then the primary node, then — deduplicated by
    /// address — the pool: the health tracker's snapshot when syncing is
    /// enabled, else the full configured set. Disabled nodes are dropped;
    /// the survivors are stamped with the request path and query. Fails with
    /// `SyncedNodePoolEmpty` when nothing remains, and with `PoisonError`
    /// when the health tracker's lock was poisoned.
    #[verifier::rlimit(50)]
    pub fn get_nodes(
        &self,
        path: &str,
        query: Option<&str>,
        use_primary_pow_node: bool,
        prefer_permanode: bool,
    ) -> (r: Result<Vec<Node>, Error>)
        ensures
            !self.node_sync_enabled ==> candidates_rel(
                self.permanode_seq(),
                wants_permanodes(prefer_permanode, path@, query_view(query)),
                self.primary_pow_node, use_primary_pow_node,
                self.primary_node, self.nodes@, path@, query_view(query), r,
            ),
            self.node_sync_enabled ==> r == Err::<Vec<Node>, Error>(Error::PoisonError)
                || exists|pool: Seq<Node>|
                #[trigger] candidates_rel(
                    self.permanode_seq(),
                    wants_permanodes(prefer_permanode, path@, query_view(query)),
                    self.primary_pow_node,
                    use_primary_pow_node, self.primary_node, pool, path@,
                    query_view(query), r,
                ),
            !self.node_sync_enabled ==> r != Err::<Vec<Node>, Error>(Error::PoisonError),
    {
        let use_perma = prefer_permanode || (str_eq(path, "api/core/v2/blocks") && query.is_some());
        let empty_perma: Vec<Node> = Vec::new();
        let permanodes: &Vec<Node> = match &self.permanodes {
            Some(v) => v,
            None => &empty_perma,
        };
        let pool: Vec<Node> = if self.node_sync_enabled {
            match self.synced_nodes.snapshot() {
                Ok(v) => v,
                Err(e) => {
                    return Err(e);
                },
            }
        } else {
            clone_nodes(&self.nodes)
        };
        let r = assemble_candidates(
            permanodes,
            use_perma,
            &self.primary_pow_node,
            use_primary_pow_node,
            &self.primary_node,
            &pool,
            path,
            query,
        );
        proof {
            assert(use_perma == wants_permanodes(prefer_permanode, path@, query_view(query)));
            if self.node_sync_enabled {
                assert(candidates_rel(
                    self.permanode_seq(),
                    wants_permanodes(prefer_permanode, path@, query_view(query)),
                    self.primary_pow_node, use_primary_pow_node,
                    self.primary_node, pool@, path@, query_view(query), r,
                ));
            }
        }
        r
    }

    /// Sets up a GET: builds the candidate list (no PoW preference) and,
    /// when quorum is configured and required for this call, fails with
    /// `QuorumPoolSizeError` if fewer candidates exist than
    /// `min_quorum_size` — a partial quorum is never attempted. On success
    /// the candidates come with a fresh dispatch carrying the request's
    /// quorum flags.
    #[verifier::rlimit(50)]
    pub fn prepare_get_request(
        &self,
        path: &str,
        query: Option<&str>,
        need_quorum: bool,
        prefer_permanode: bool,
    ) -> (r: Result<(Vec<Node>, GetDispatch), Error>)
        requires
            self.wf(),
        ensures
            !self.node_sync_enabled ==> self.prepare_get_rel(
                wants_permanodes(prefer_permanode, path@, query_view(query)), self.nodes@, path@,
                query_view(query), need_quorum, r,
            ),
            self.node_sync_enabled ==> r == Err::<(Vec<Node>, GetDispatch), Error>(
                Error::PoisonError,
            ) || exists|pool: Seq<Node>|
                #[trigger] self.prepare_get_rel(
                    wants_permanodes(prefer_permanode, path@, query_view(query)), pool, path@,
                    query_view(query), need_quorum, r,
                ),
            !self.node_sync_enabled ==> r != Err::<(Vec<Node>, GetDispatch), Error>(
                Error::PoisonError,
            ),
            r is Ok && self.quorum.quorum_enabled && need_quorum ==> r->Ok_0.0@.len()
                >= self.quorum.min_quorum_size,
    {
        let ghost use_perma = wants_permanodes(prefer_permanode, path@, query_view(query));
        let nodes = match self.get_nodes(path, query, false, prefer_permanode) {
            Ok(v) => v,
            Err(e) => {
                let r = Err::<(Vec<Node>, GetDispatch), Error>(e);
                proof {
                    if !self.node_sync_enabled {
                        assert(e == Error::SyncedNodePoolEmpty);
                        assert(self.prepare_get_rel(
                            use_perma, self.nodes@, path@, query_view(query), need_quorum, r,
                        ));
                    } else if e != Error::PoisonError {
                        let pool = choose|pool: Seq<Node>|
                            #[trigger] candidates_rel(
                                self.permanode_seq(), use_perma, self.primary_pow_node, false,
                                self.primary_node, pool, path@, query_view(query),
                                Err::<Vec<Node>, Error>(e),
                            );
                        assert(e == Error::SyncedNodePoolEmpty);
                        assert(self.prepare_get_rel(
                            use_perma, pool, path@, query_view(query), need_quorum, r,
                        ));
                    }
                }
                return r;
            },
        };
        let ghost pool_used: Seq<Node> = if self.node_sync_enabled {
            choose|pool: Seq<Node>|
                #[trigger] candidates_rel(
                    self.permanode_seq(), use_perma, self.primary_pow_node, false,
                    self.primary_node, pool, path@, query_view(query),
                    Ok::<Vec<Node>, Error>(nodes),
                )
        } else {
            self.nodes@
        };
        proof {
            assert(candidates_rel(
                self.permanode_seq(), use_perma, self.primary_pow_node, false, self.primary_node,
                pool_used, path@, query_view(query), Ok::<Vec<Node>, Error>(nodes),
            ));
        }
        if self.quorum.quorum_enabled && need_quorum && nodes.len() < self.quorum.min_quorum_size {
            let r = Err::<(Vec<Node>, GetDispatch), Error>(Error::QuorumPoolSizeError {
                available_nodes: nodes.len(),
                minimum_threshold: self.quorum.min_quorum_size,
            });
            proof {
                assert(self.prepare_get_rel(
                    use_perma, pool_used, path@, query_view(query), need_quorum, r,
                ));
            }
            return r;
        }
        let node_info = str_eq(path, "api/core/v2/info");
        let dispatch = GetDispatch::new(self.quorum, need_quorum, query.is_some(), node_info);
        let r = Ok((nodes, dispatch));
        proof {
            let cd = r->Ok_0;
            assert(cd.0 == nodes);
            assert(self.prepare_get_rel(
                use_perma, pool_used, path@, query_view(query), need_quorum, r,
            ));
        }
        r
    }

    /// Sets up a POST: candidates are selected with the PoW-node preference
    /// set exactly when proof of work is not done locally, and an empty list
    /// is a hard error.
    #[verifier::rlimit(50)]
    pub fn prepare_post_request(&self, path: &str, local_pow: bool) -> (r: Result<
        Vec<Node>,
        Error,
    >)
        ensures
            !self.node_sync_enabled ==> self.prepare_post_rel(
                pow_preference(local_pow), self.nodes@, path@, r,
            ),
            self.node_sync_enabled ==> r == Err::<Vec<Node>, Error>(Error::PoisonError)
                || exists|pool: Seq<Node>|
                #[trigger] self.prepare_post_rel(pow_preference(local_pow), pool, path@, r),
            !self.node_sync_enabled ==> r != Err::<Vec<Node>, Error>(Error::PoisonError),
            r is Ok ==> r->Ok_0@.len() > 0,
            r is Ok ==> forall|i: int|
                0 <= i < r->Ok_0@.len() ==> !(#[trigger] r->Ok_0@[i]).disabled,
    {
        let ghost use_pow = pow_preference(local_pow);
        let nodes = match self.get_nodes(path, None, !local_pow, false) {
            Ok(v) => v,
            Err(e) => {
                let r = Err::<Vec<Node>, Error>(e);
                proof {
                    assert(!wants_permanodes(false, path@, query_view(None)));
                    if !self.node_sync_enabled {
                        assert(e == Error::SyncedNodePoolEmpty);
                        assert(self.prepare_post_rel(use_pow, self.nodes@, path@, r));
                    } else if e != Error::PoisonError {
                        let pool = choose|pool: Seq<Node>|
                            #[trigger] candidates_rel(
                                self.permanode_seq(),
                                wants_permanodes(false, path@, query_view(None)),
                                self.primary_pow_node, use_pow,
                                self.primary_node, pool, path@, query_view(None),
                                Err::<Vec<Node>, Error>(e),
                            );
                        assert(e == Error::SyncedNodePoolEmpty);
                        assert(self.prepare_post_rel(use_pow, pool, path@, r));
                    }
                }
                return r;
            },
        };
        let result: Result<Vec<Node>, Error> = Ok(nodes);
        proof {
            // A produced candidate list is never empty: emptiness is reported
            // as SyncedNodePoolEmpty instead.
            assert(!wants_permanodes(false, path@, query_view(None)));
            assert(result->Ok_0@ == nodes@);
            let pool_used: Seq<Node> = if self.node_sync_enabled {
                choose|pool: Seq<Node>|
                    #[trigger] candidates_rel(
                        self.permanode_seq(), wants_permanodes(false, path@, query_view(None)),
                        self.primary_pow_node, use_pow,
                        self.primary_node, pool, path@, query_view(None),
                        Ok::<Vec<Node>, Error>(nodes),
                    )
            } else {
                self.nodes@
            };
            assert(candidates_rel(
                self.permanode_seq(), false, self.primary_pow_node, use_pow, self.primary_node,
                pool_used, path@, None, Ok::<Vec<Node>, Error>(result->Ok_0),
            ));
            assert(self.prepare_post_rel(use_pow, pool_used, path@, result));
            assert(result->Ok_0@.len() > 0);
        }
        result
    }
}

/// The builder of a node manager, with the default configuration: syncing
/// on, one-minute sync interval, quorum off with three nodes at a threshold
/// of 66 percent.
pub struct NodeManagerBuilder {
    pub primary_node: Option<Node>,
    pub primary_pow_node: Option<Node>,
    pub nodes: Vec<Node>,
    pub permanodes: Option<Vec<Node>>,
    pub node_sync_enabled: bool,
    pub node_sync_interval_ms: u64,
    pub quorum: bool,
    pub min_quorum_size: usize,
    pub quorum_threshold: usize,
}

/// The default sync interval: one minute.
pub const DEFAULT_NODE_SYNC_INTERVAL_MS: u64 = 60000;

/// The default number of nodes a quorum read asks.
pub const DEFAULT_MIN_QUORUM_SIZE: usize = 3;

/// The default percentage of quorum answers that must agree.
pub const DEFAULT_QUORUM_THRESHOLD: usize = 66;

impl NodeManagerBuilder {
    /// The threshold stays a percentage through every configuration step.
    pub open spec fn wf(self) -> bool {
        self.quorum_threshold <= 100
    }

    /// A builder with the default configuration.
    pub fn new() -> (b: NodeManagerBuilder)
        ensures
            b.primary_node is None,
            b.primary_pow_node is None,
            b.nodes@ == Seq::<Node>::empty(),
            b.permanodes is None,
            b.node_sync_enabled,
            b.node_sync_interval_ms == DEFAULT_NODE_SYNC_INTERVAL_MS,
            !b.quorum,
            b.min_quorum_size == DEFAULT_MIN_QUORUM_SIZE,
            b.quorum_threshold == DEFAULT_QUORUM_THRESHOLD,
            b.wf(),
    {
        NodeManagerBuilder {
            primary_node: None,
            primary_pow_node: None,
            nodes: Vec::new(),
            permanodes: None,
            node_sync_enabled: true,
            node_sync_interval_ms: DEFAULT_NODE_SYNC_INTERVAL_MS,
            quorum: false,
            min_quorum_size: DEFAULT_MIN_QUORUM_SIZE,
            quorum_threshold: DEFAULT_QUORUM_THRESHOLD,
        }
    }

    /// Adds a node by its address, which must be a well-formed absolute URL.
    pub fn with_node(self, url: &str) -> (r: Result<NodeManagerBuilder, Error>)
        ensures
            r is Ok <==> crate::node::is_valid_url(url.spec_bytes()),
            r is Err ==> r == Err::<NodeManagerBuilder, Error>(Error::InvalidUrl),
            r is Ok ==> ({
                let b = r->Ok_0;
                &&& b == (NodeManagerBuilder { nodes: b.nodes, ..self })
                &&& b.nodes@.len() == self.nodes@.len() + 1
                &&& b.nodes@.take(self.nodes@.len() as int) == self.nodes@
                &&& b.nodes@.last().url@ == url@
                &&& !b.nodes@.last().disabled
                &&& b.nodes@.last().auth is None
            }),
            self.wf() ==> (r is Ok ==> r->Ok_0.wf()),
    {
        self.with_node_auth(url, None)
    }

    /// Adds a node by its address with optional credentials.
    pub fn with_node_auth(self, url: &str, auth: Option<NodeAuth>) -> (r: Result<
        NodeManagerBuilder,
        Error,
    >)
        ensures
            r is Ok <==> crate::node::is_valid_url(url.spec_bytes()),
            r is Err ==> r == Err::<NodeManagerBuilder, Error>(Error::InvalidUrl),
            r is Ok ==> ({
                let b = r->Ok_0;
                &&& b == (NodeManagerBuilder { nodes: b.nodes, ..self })
                &&& b.nodes@.len() == self.nodes@.len() + 1
                &&& b.nodes@.take(self.nodes@.len() as int) == self.nodes@
                &&& b.nodes@.last().url@ == url@
                &&& !b.nodes@.last().disabled
                &&& b.nodes@.last().auth == auth
            }),
            self.wf() ==> (r is Ok ==> r->Ok_0.wf()),
    {
        match validate_url(url) {
            Ok(()) => {
                let mut b = self;
                b.nodes.push(Node::with_auth(url.to_owned(), auth));
                proof {
                    assert(b.nodes@.take(b.nodes@.len() - 1) =~= self.nodes@);
                }
                Ok(b)
            },
            Err(e) => Err(e),
        }
    }

    /// Sets the primary node, with optional credentials.
    pub fn with_primary_node(self, url: &str, auth: Option<NodeAuth>) -> (r: Result<
        NodeManagerBuilder,
        Error,
    >)
        ensures
            r is Ok <==> crate::node::is_valid_url(url.spec_bytes()),
            r is Err ==> r == Err::<NodeManagerBuilder, Error>(Error::InvalidUrl),
            r is Ok ==> ({
                let b = r->Ok_0;
                &&& b == (NodeManagerBuilder { primary_node: b.primary_node, ..self })
                &&& b.primary_node is Some
                &&& b.primary_node->0.url@ == url@
                &&& !b.primary_node->0.disabled
                &&& b.primary_node->0.auth == auth
            }),
            self.wf() ==> (r is Ok ==> r->Ok_0.wf()),
    {
        match validate_url(url) {
            Ok(()) => {
                let mut b = self;
                b.primary_node = Some(Node::with_auth(url.to_owned(), auth));
                Ok(b)
            },
            Err(e) => Err(e),
        }
    }

    /// Sets the primary proof-of-work node, with optional credentials.
    pub fn with_primary_pow_node(self, url: &str, auth: Option<NodeAuth>) -> (r: Result<
        NodeManagerBuilder,
        Error,
    >)
        ensures
            r is Ok <==> crate::node::is_valid_url(url.spec_bytes()),
            r is Err ==> r == Err::<NodeManagerBuilder, Error>(Error::InvalidUrl),
            r is Ok ==> ({
                let b = r->Ok_0;
                &&& b == (NodeManagerBuilder { primary_pow_node: b.primary_pow_node, ..self })
                &&& b.primary_pow_node is Some
                &&& b.primary_pow_node->0.url@ == url@
                &&& !b.primary_pow_node->0.disabled
                &&& b.primary_pow_node->0.auth == auth
            }),
            self.wf() ==> (r is Ok ==> r->Ok_0.wf()),
    {
        match validate_url(url) {
            Ok(()) => {
                let mut b = self;
                b.primary_pow_node = Some(Node::with_auth(url.to_owned(), auth));
                Ok(b)
            },
            Err(e) => Err(e),
        }
    }

    /// Adds a permanode by its address, with optional credentials.
    pub fn with_permanode(self, url: &str, auth: Option<NodeAuth>) -> (r: Result<
        NodeManagerBuilder,
        Error,
    >)
        ensures
            r is Ok <==> crate::node::is_valid_url(url.spec_bytes()),
            r is Err ==> r == Err::<NodeManagerBuilder, Error>(Error::InvalidUrl),
            r is Ok ==> ({
                let b = r->Ok_0;
                &&& b == (NodeManagerBuilder { permanodes: b.permanodes, ..self })
                &&& b.permanodes is Some
                &&& b.permanodes->0@.len() as int == (match self.permanodes {
                    Some(v) => v@.len() as int + 1,
                    None => 1int,
                })
                &&& b.permanodes->0@.last().url@ == url@
                &&& !b.permanodes->0@.last().disabled
                &&& b.permanodes->0@.last().auth == auth
            }),
            self.wf() ==> (r is Ok ==> r->Ok_0.wf()),
    {
        match validate_url(url) {
            Ok(()) => {
                let mut b = self;
                let node = Node::with_auth(url.to_owned(), auth);
                b.permanodes = match b.permanodes {
                    Some(mut v) => {
                        v.push(node);
                        Some(v)
                    },
                    None => {
                        let mut v: Vec<Node> = Vec::new();
                        v.push(node);
                        Some(v)
                    },
                };
                Ok(b)
            },
            Err(e) => Err(e),
        }
    }

    /// Sets the sync interval, in milliseconds.
    pub fn with_node_sync_interval(self, interval_ms: u64) -> (b: NodeManagerBuilder)
        ensures
            b == (NodeManagerBuilder { node_sync_interval_ms: interval_ms, ..self }),
            self.wf() ==> b.wf(),
    {
        let mut b = self;
        b.node_sync_interval_ms = interval_ms;
        b
    }

    /// Disables the sync process: every configured node is then used as-is.
    pub fn with_node_sync_disabled(self) -> (b: NodeManagerBuilder)
        ensures
            b == (NodeManagerBuilder { node_sync_enabled: false, ..self }),
            self.wf() ==> b.wf(),
    {
        let mut b = self;
        b.node_sync_enabled = false;
        b
    }

    /// Turns quorum voting on or off.
    pub fn with_quorum(self, quorum: bool) -> (b: NodeManagerBuilder)
        ensures
            b == (NodeManagerBuilder { quorum, ..self }),
            self.wf() ==> b.wf(),
    {
        let mut b = self;
        b.quorum = quorum;
        b
    }

    /// Sets how many nodes take part in a quorum read.
    pub fn with_min_quorum_size(self, min_quorum_size: usize) -> (b: NodeManagerBuilder)
        ensures
            b == (NodeManagerBuilder { min_quorum_size, ..self }),
            self.wf() ==> b.wf(),
    {
        let mut b = self;
        b.min_quorum_size = min_quorum_size;
        b
    }

    /// Sets the agreement threshold, clamped to 100: whatever is asked for,
    /// the stored threshold is a percentage.
    pub fn with_quorum_threshold(self, threshold: usize) -> (b: NodeManagerBuilder)
        ensures
            b.quorum_threshold == (if threshold > 100 { 100int } else { threshold as int }),
            b.quorum_threshold <= 100,
            b.wf(),
            b == (NodeManagerBuilder { quorum_threshold: b.quorum_threshold, ..self }),
    {
        let clamped = if threshold > 100 { 100 } else { threshold };
        let mut b = self;
        b.quorum_threshold = clamped;
        b
    }

    /// Builds the node manager around the given health tracker. The pool is
    /// immutable after this point, and its threshold is a percentage.
    pub fn build(self, synced_nodes: SharedNodeSet) -> (m: NodeManager)
        requires
            self.wf(),
        ensures
            m.primary_node == self.primary_node,
            m.primary_pow_node == self.primary_pow_node,
            m.nodes == self.nodes,
            m.permanodes == self.permanodes,
            m.node_sync_enabled == self.node_sync_enabled,
            m.node_sync_interval_ms == self.node_sync_interval_ms,
            m.quorum == (QuorumParams {
                quorum_enabled: self.quorum,
                min_quorum_size: self.min_quorum_size,
                quorum_threshold: self.quorum_threshold,
            }),
            m.wf(),
    {
        NodeManager {
            primary_node: self.primary_node,
            primary_pow_node: self.primary_pow_node,
            nodes: self.nodes,
            permanodes: self.permanodes,
            node_sync_enabled: self.node_sync_enabled,
            node_sync_interval_ms: self.node_sync_interval_ms,
            synced_nodes,
            quorum: QuorumParams {
                quorum_enabled: self.quorum,
                min_quorum_size: self.min_quorum_size,
                quorum_threshold: self.quorum_threshold,
            },
        }
    }
}

/// Clamping at configuration time is what keeps every constructed pool's
/// threshold at or below 100: a clamped threshold is a percentage, whatever
/// value was asked for.
pub proof fn lemma_clamped_threshold_is_percentage(threshold: int)
    ensures
        (if threshold > 100 { 100int } else { threshold }) <= 100,
{
}

} // verus!
