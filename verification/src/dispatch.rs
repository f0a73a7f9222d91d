//! Request dispatch over an ordered candidate list: one node at a time for
//! sequential reads, byte fetches and writes, with optional quorum voting.
//!
//! The transport itself (HTTP, timeouts) is an outside collaborator; the
//! functions here take each node's answer as a plain value and decide what to
//! tally, what to remember as the trailing error, and when to stop.

use vstd::prelude::*;
use crate::error::Error;
use crate::node::Node;
use crate::quorum::{
    best_entry, best_from, key_index, quorum_waived, record_vote, required_votes, resolve_votes,
    QuorumParams, VoteTally,
};

verus! {

/// One node's answer to a GET, as the dispatch logic sees it. For a
/// 200-status response, `body` holds the canonical serialized form of the
/// decoded value (`None` when decoding failed); for any other status it holds
/// the plain response text (`None` when the text could not be read).
pub enum NodeReply {
    Response { status: u16, body: Option<String> },
    /// The transport itself reported "object not found".
    NotFound,
    /// A transport failure (a timeout counts as one), with its message.
    TransportError { message: String },
}

/// A successful GET.
pub enum GetSuccess {
    /// The agreed-upon serialized value.
    Value(String),
    /// From the node-information endpoint: the body together with the
    /// address of the node that answered.
    ValueFromNode { body: String, url: String },
}

/// A reply that adds a vote: a 200 status with a decodable body.
pub open spec fn is_success_reply(reply: NodeReply) -> bool {
    match reply {
        NodeReply::Response { status, body } => status == 200 && body is Some,
        _ => false,
    }
}

/// The tallied body of a successful reply.
pub open spec fn success_body(reply: NodeReply) -> String
    recommends
        is_success_reply(reply),
{
    reply->Response_body->0
}

/// How a failed reply is remembered as the trailing error `e`.
pub open spec fn records_failure(reply: NodeReply, e: Option<Error>) -> bool {
    match reply {
        NodeReply::Response { status, body } => {
            if status == 200 {
                match body {
                    Some(_) => false,
                    None => e == Some(Error::JsonDecodeError),
                }
            } else {
                match body {
                    Some(t) => e == Some(Error::NodeError(t)),
                    None => e is Some && e->0 is NodeError
                        && e->0->NodeError_0@ == "Couldn't convert node response into text"@,
                }
            }
        },
        NodeReply::NotFound => e == Some(Error::NotFound),
        NodeReply::TransportError { message } => e == Some(Error::NodeError(message)),
    }
}

/// How the final outcome of a GET relates to the final vote table; the same
/// resolution as `resolve_rel`, with the winning value wrapped as a
/// `GetSuccess`.
pub open spec fn get_result_rel(
    params: QuorumParams,
    need_quorum: bool,
    has_query: bool,
    entries: Seq<(String, usize)>,
    last_error: Option<Error>,
    r: Result<GetSuccess, Error>,
) -> bool {
    match best_entry(entries) {
        Some(b) => {
            if quorum_waived(params, need_quorum, has_query)
                || b.1 >= required_votes(params.min_quorum_size as int, params.quorum_threshold as int) {
                r == Ok::<GetSuccess, Error>(GetSuccess::Value(b.0))
            } else {
                r == Err::<GetSuccess, Error>(Error::QuorumThresholdError {
                    quorum_size: b.1,
                    minimum_threshold: params.min_quorum_size,
                })
            }
        },
        None => {
            match last_error {
                Some(e) => r == Err::<GetSuccess, Error>(e),
                None => r is Err && r->Err_0 is NodeError
                    && r->Err_0->NodeError_0@ == "Couldn't get a result from any node"@,
            }
        },
    }
}

/// One visit of a candidate during a GET: how the vote table, the trailing
/// error and the verdict (`ro`: `None` to continue, `Some` to finish) relate
/// to the node's reply.
pub open spec fn get_step_rel(
    params: QuorumParams,
    need_quorum: bool,
    has_query: bool,
    node_info: bool,
    entries: Seq<(String, usize)>,
    last_error: Option<Error>,
    node: Node,
    reply: NodeReply,
    entries2: Seq<(String, usize)>,
    last_error2: Option<Error>,
    ro: Option<Result<GetSuccess, Error>>,
) -> bool {
    if node_info {
        match reply {
            NodeReply::Response { status, body } if status == 200 => {
                &&& entries2 == entries
                &&& last_error2 == last_error
                &&& match body {
                    Some(b) => ro == Some(
                        Ok::<GetSuccess, Error>(GetSuccess::ValueFromNode { body: b, url: node.url }),
                    ),
                    None => ro == Some(Err::<GetSuccess, Error>(Error::JsonDecodeError)),
                }
            },
            _ => {
                &&& ro is None
                &&& entries2 == entries
                &&& records_failure(reply, last_error2)
            },
        }
    } else {
        if is_success_reply(reply) {
            let after = record_vote(entries, success_body(reply));
            &&& entries2 == after
            &&& last_error2 == last_error
            &&& if quorum_waived(params, need_quorum, has_query)
                || best_entry(after).unwrap().1 >= params.min_quorum_size {
                &&& ro is Some
                &&& get_result_rel(params, need_quorum, has_query, after, last_error2, ro->0)
            } else {
                ro is None
            }
        } else {
            &&& ro is None
            &&& entries2 == entries
            &&& records_failure(reply, last_error2)
        }
    }
}

/// A whole sequential GET over the candidates in order: replies are folded
/// through `get_step_rel` until one visit finishes, and an exhausted list is
/// resolved from the final table.
pub open spec fn get_run_rel(
    params: QuorumParams,
    need_quorum: bool,
    has_query: bool,
    node_info: bool,
    entries: Seq<(String, usize)>,
    last_error: Option<Error>,
    nodes: Seq<Node>,
    replies: Seq<NodeReply>,
    r: Result<GetSuccess, Error>,
) -> bool
    decreases replies.len(),
{
    if replies.len() == 0 || nodes.len() == 0 {
        get_result_rel(params, need_quorum, has_query, entries, last_error, r)
    } else {
        exists|entries2: Seq<(String, usize)>, last_error2: Option<Error>, ro: Option<Result<GetSuccess, Error>>|
            {
                &&& #[trigger] get_step_rel(
                    params, need_quorum, has_query, node_info,
                    entries, last_error, nodes[0], replies[0],
                    entries2, last_error2, ro,
                )
                &&& match ro {
                    Some(x) => r == x,
                    None => get_run_rel(
                        params, need_quorum, has_query, node_info,
                        entries2, last_error2,
                        nodes.drop_first(), replies.drop_first(), r,
                    ),
                }
            }
    }
}

/// The in-flight state of one GET dispatch: the configuration, the running
/// vote table, and the trailing error.
pub struct GetDispatch {
    pub params: QuorumParams,
    pub need_quorum: bool,
    pub has_query: bool,
    /// The node-information endpoint bypasses the vote tally: the first node
    /// to answer with a 200 status wins immediately.
    pub node_info: bool,
    pub tally: VoteTally,
    pub last_error: Option<Error>,
}

impl GetDispatch {
    pub open spec fn wf(self) -> bool {
        self.params.wf() && self.tally.wf()
    }

    /// A fresh dispatch with an empty table and no trailing error.
    pub fn new(params: QuorumParams, need_quorum: bool, has_query: bool, node_info: bool) -> (d:
        GetDispatch)
        requires
            params.wf(),
        ensures
            d.params == params,
            d.need_quorum == need_quorum,
            d.has_query == has_query,
            d.node_info == node_info,
            d.tally.entries_view() == Seq::<(String, usize)>::empty(),
            d.tally.total_spec() == 0,
            d.last_error is None,
            d.wf(),
    {
        GetDispatch {
            params,
            need_quorum,
            has_query,
            node_info,
            tally: VoteTally::new(),
            last_error: None,
        }
    }

    /// How many successful responses were tallied so far: one per visited
    /// candidate at most, so a caller can bound it before the next step.
    pub fn votes_total(&self) -> (r: usize)
        ensures
            r as int == self.tally.total_spec(),
    {
        self.tally.total()
    }

    /// Feeds one candidate's reply in precedence order. `None` means "go on
    /// to the next candidate"; `Some` carries the finished outcome.
    pub fn step(&mut self, node: &Node, reply: NodeReply) -> (ro: Option<Result<GetSuccess, Error>>)
        requires
            old(self).wf(),
            old(self).tally.total_spec() < usize::MAX,
        ensures
            final(self).wf(),
            final(self).params == old(self).params,
            final(self).need_quorum == old(self).need_quorum,
            final(self).has_query == old(self).has_query,
            final(self).node_info == old(self).node_info,
            final(self).tally.total_spec() <= old(self).tally.total_spec() + 1,
            get_step_rel(
                old(self).params, old(self).need_quorum, old(self).has_query, old(self).node_info,
                old(self).tally.entries_view(), old(self).last_error,
                *node, reply,
                final(self).tally.entries_view(), final(self).last_error, ro,
            ),
    {
        if self.node_info {
            match reply {
                NodeReply::Response { status, body } => {
                    if status == 200 {
                        match body {
                            Some(b) => Some(
                                Ok(GetSuccess::ValueFromNode { body: b, url: node.url.clone() }),
                            ),
                            None => Some(Err(Error::JsonDecodeError)),
                        }
                    } else {
                        self.last_error = Some(
                            match body {
                                Some(t) => Error::NodeError(t),
                                None => Error::NodeError(
                                    "Couldn't convert node response into text".to_owned(),
                                ),
                            },
                        );
                        None
                    }
                },
                NodeReply::NotFound => {
                    self.last_error = Some(Error::NotFound);
                    None
                },
                NodeReply::TransportError { message } => {
                    self.last_error = Some(Error::NodeError(message));
                    None
                },
            }
        } else {
            match reply {
                NodeReply::Response { status, body } => {
                    if status == 200 {
                        match body {
                            Some(b) => {
                                self.tally.record(b);
                                proof {
                                    assert(self.tally.entries_view().len() > 0);
                                }
                                let best_now = self.tally.best();
                                let stop = !self.params.quorum_enabled || !self.need_quorum
                                    || self.has_query || {
                                    match best_now {
                                        Some(bb) => bb.1 >= self.params.min_quorum_size,
                                        None => false,
                                    }
                                };
                                if stop {
                                    let res = resolve_votes(
                                        &self.params,
                                        self.need_quorum,
                                        self.has_query,
                                        &self.tally,
                                        &self.last_error,
                                    );
                                    Some(
                                        match res {
                                            Ok(v) => Ok(GetSuccess::Value(v)),
                                            Err(e) => Err(e),
                                        },
                                    )
                                } else {
                                    None
                                }
                            },
                            None => {
                                self.last_error = Some(Error::JsonDecodeError);
                                None
                            },
                        }
                    } else {
                        self.last_error = Some(
                            match body {
                                Some(t) => Error::NodeError(t),
                                None => Error::NodeError(
                                    "Couldn't convert node response into text".to_owned(),
                                ),
                            },
                        );
                        None
                    }
                },
                NodeReply::NotFound => {
                    self.last_error = Some(Error::NotFound);
                    None
                },
                NodeReply::TransportError { message } => {
                    self.last_error = Some(Error::NodeError(message));
                    None
                },
            }
        }
    }

    /// Resolves an exhausted candidate list from the final vote table.
    pub fn finish(&self) -> (r: Result<GetSuccess, Error>)
        requires
            self.wf(),
        ensures
            get_result_rel(
                self.params, self.need_quorum, self.has_query,
                self.tally.entries_view(), self.last_error, r,
            ),
    {
        match resolve_votes(&self.params, self.need_quorum, self.has_query, &self.tally, &self.last_error) {
            Ok(v) => Ok(GetSuccess::Value(v)),
            Err(e) => Err(e),
        }
    }
}

/// Runs a whole sequential GET against a fixed list of replies, one per
/// candidate in precedence order, stopping at the first finishing visit.
pub fn dispatch_get_sequential(
    params: &QuorumParams,
    need_quorum: bool,
    has_query: bool,
    node_info: bool,
    candidates: &Vec<Node>,
    replies: Vec<NodeReply>,
) -> (r: Result<GetSuccess, Error>)
    requires
        params.wf(),
        replies@.len() == candidates@.len(),
    ensures
        get_run_rel(
            *params, need_quorum, has_query, node_info,
            Seq::<(String, usize)>::empty(), None,
            candidates@, replies@, r,
        ),
{
    let ghost all_nodes = candidates@;
    let ghost all_replies = replies@;
    let mut d = GetDispatch::new(*params, need_quorum, has_query, node_info);
    let mut pending = replies;
    let mut i: usize = 0;
    let n = candidates.len();
    proof {
        assert(all_nodes.skip(0) =~= all_nodes);
        assert(all_replies.skip(0) =~= all_replies);
    }
    while i < n
        invariant
            0 <= i <= n,
            all_nodes == candidates@,
            all_replies == replies@,
            n == all_nodes.len(),
            pending@ == all_replies.skip(i as int),
            all_replies.len() == all_nodes.len(),
            d.wf(),
            d.params == *params,
            d.need_quorum == need_quorum,
            d.has_query == has_query,
            d.node_info == node_info,
            d.tally.total_spec() <= i,
            forall|rr: Result<GetSuccess, Error>|
                #![trigger get_run_rel(
                    *params, need_quorum, has_query, node_info,
                    d.tally.entries_view(), d.last_error,
                    all_nodes.skip(i as int), all_replies.skip(i as int), rr,
                )]
                get_run_rel(
                    *params, need_quorum, has_query, node_info,
                    d.tally.entries_view(), d.last_error,
                    all_nodes.skip(i as int), all_replies.skip(i as int), rr,
                ) ==> get_run_rel(
                    *params, need_quorum, has_query, node_info,
                    Seq::<(String, usize)>::empty(), None,
                    all_nodes, all_replies, rr,
                ),
        decreases n - i,
    {
        let ghost pre_entries = d.tally.entries_view();
        let ghost pre_error = d.last_error;
        let reply = pending.remove(0);
        let ro = d.step(&candidates[i], reply);
        proof {
            assert(pending@ =~= all_replies.skip(i as int + 1));
            assert(all_nodes.skip(i as int)[0] == all_nodes[i as int]);
            assert(all_replies.skip(i as int)[0] == all_replies[i as int]);
            assert(all_nodes.skip(i as int).drop_first() =~= all_nodes.skip(i as int + 1));
            assert(all_replies.skip(i as int).drop_first() =~= all_replies.skip(i as int + 1));
            assert(get_step_rel(
                *params, need_quorum, has_query, node_info,
                pre_entries, pre_error,
                all_nodes.skip(i as int)[0], all_replies.skip(i as int)[0],
                d.tally.entries_view(), d.last_error, ro,
            ));
        }
        match ro {
            Some(x) => {
                proof {
                    assert(get_run_rel(
                        *params, need_quorum, has_query, node_info,
                        pre_entries, pre_error,
                        all_nodes.skip(i as int), all_replies.skip(i as int), x,
                    ));
                    assert(get_run_rel(
                        *params, need_quorum, has_query, node_info,
                        Seq::<(String, usize)>::empty(), None,
                        all_nodes, all_replies, x,
                    ));
                }
                return x;
            },
            None => {},
        }
        proof {
            assert forall|rr: Result<GetSuccess, Error>|
                get_run_rel(
                    *params, need_quorum, has_query, node_info,
                    d.tally.entries_view(), d.last_error,
                    all_nodes.skip(i as int + 1), all_replies.skip(i as int + 1), rr,
                ) implies get_run_rel(
                    *params, need_quorum, has_query, node_info,
                    Seq::<(String, usize)>::empty(), None,
                    all_nodes, all_replies, rr,
                ) by {
                assert(get_run_rel(
                    *params, need_quorum, has_query, node_info,
                    pre_entries, pre_error,
                    all_nodes.skip(i as int), all_replies.skip(i as int), rr,
                ));
            }
        }
        i += 1;
    }
    let r = d.finish();
    proof {
        assert(all_nodes.skip(n as int) =~= Seq::<Node>::empty());
        assert(all_replies.skip(n as int) =~= Seq::<NodeReply>::empty());
        assert(get_run_rel(
            *params, need_quorum, has_query, node_info,
            d.tally.entries_view(), d.last_error,
            all_nodes.skip(n as int), all_replies.skip(n as int), r,
        ));
    }
    r
}

/// Quorum requirements are never enforced when quorum is waived — in
/// particular whenever the request carries a query string: whatever the nodes
/// answered, the read never fails with `QuorumThresholdError`.
pub proof fn lemma_waived_quorum_never_threshold_error(
    params: QuorumParams,
    need_quorum: bool,
    has_query: bool,
    node_info: bool,
    entries: Seq<(String, usize)>,
    last_error: Option<Error>,
    nodes: Seq<Node>,
    replies: Seq<NodeReply>,
    r: Result<GetSuccess, Error>,
)
    requires
        get_run_rel(params, need_quorum, has_query, node_info, entries, last_error, nodes, replies, r),
        quorum_waived(params, need_quorum, has_query),
        match last_error {
            Some(e) => !(e is QuorumThresholdError),
            None => true,
        },
    ensures
        r is Err ==> !(r->Err_0 is QuorumThresholdError),
    decreases replies.len(),
{
    if replies.len() == 0 || nodes.len() == 0 {
    } else {
        let (entries2, last_error2, ro) = choose|
            entries2: Seq<(String, usize)>,
            last_error2: Option<Error>,
            ro: Option<Result<GetSuccess, Error>>,
        |
            {
                &&& #[trigger] get_step_rel(
                    params, need_quorum, has_query, node_info,
                    entries, last_error, nodes[0], replies[0],
                    entries2, last_error2, ro,
                )
                &&& match ro {
                    Some(x) => r == x,
                    None => get_run_rel(
                        params, need_quorum, has_query, node_info,
                        entries2, last_error2,
                        nodes.drop_first(), replies.drop_first(), r,
                    ),
                }
            };
        match ro {
            Some(_) => {},
            None => {
                lemma_waived_quorum_never_threshold_error(
                    params, need_quorum, has_query, node_info,
                    entries2, last_error2,
                    nodes.drop_first(), replies.drop_first(), r,
                );
            },
        }
    }
}

/// With quorum waived and the vote tally in play (not the node-information
/// endpoint), the first success is accepted outright: the read returns that
/// node's body, exactly as when quorum is disabled or a query is present.
pub proof fn lemma_waived_first_success_wins(
    params: QuorumParams,
    need_quorum: bool,
    has_query: bool,
    last_error: Option<Error>,
    nodes: Seq<Node>,
    replies: Seq<NodeReply>,
    r: Result<GetSuccess, Error>,
    k: int,
)
    requires
        get_run_rel(
            params, need_quorum, has_query, false,
            Seq::<(String, usize)>::empty(), last_error, nodes, replies, r,
        ),
        quorum_waived(params, need_quorum, has_query),
        nodes.len() == replies.len(),
        0 <= k < replies.len(),
        is_success_reply(replies[k]),
        forall|j: int| 0 <= j < k ==> !is_success_reply(#[trigger] replies[j]),
    ensures
        r == Ok::<GetSuccess, Error>(GetSuccess::Value(success_body(replies[k]))),
    decreases k,
{
    let (entries2, last_error2, ro) = choose|
        entries2: Seq<(String, usize)>,
        last_error2: Option<Error>,
        ro: Option<Result<GetSuccess, Error>>,
    |
        {
            &&& #[trigger] get_step_rel(
                params, need_quorum, has_query, false,
                Seq::<(String, usize)>::empty(), last_error, nodes[0], replies[0],
                entries2, last_error2, ro,
            )
            &&& match ro {
                Some(x) => r == x,
                None => get_run_rel(
                    params, need_quorum, has_query, false,
                    entries2, last_error2,
                    nodes.drop_first(), replies.drop_first(), r,
                ),
            }
        };
    if k == 0 {
        let b = success_body(replies[0]);
        let after = record_vote(Seq::<(String, usize)>::empty(), b);
        assert(key_index(Seq::<(String, usize)>::empty(), b@, 0) == 0);
        assert(after =~= Seq::<(String, usize)>::empty().push((b, 1usize)));
        assert(after.drop_first() =~= Seq::<(String, usize)>::empty());
        assert(best_from(after.drop_first(), after[0]) == after[0]);
        assert(best_entry(after) == Some((b, 1usize)));
    } else {
        assert(!is_success_reply(replies[0]));
        assert(replies.drop_first()[k - 1] == replies[k]);
        lemma_waived_first_success_wins(
            params, need_quorum, has_query, last_error2,
            nodes.drop_first(), replies.drop_first(), r, k - 1,
        );
    }
}

/// The vote table after a parallel quorum fan-out: every reply with a
/// readable body is tallied, in arrival order; statuses play no role there.
pub open spec fn parallel_entries(entries: Seq<(String, usize)>, replies: Seq<NodeReply>) -> Seq<(String, usize)>
    decreases replies.len(),
{
    if replies.len() == 0 {
        entries
    } else {
        let rest = match replies[0] {
            NodeReply::Response { status, body } => match body {
                Some(t) => record_vote(entries, t),
                None => entries,
            },
            _ => entries,
        };
        parallel_entries(rest, replies.drop_first())
    }
}

/// The trailing error after a parallel quorum fan-out: transport failures are
/// remembered, unreadable bodies are only logged.
pub open spec fn parallel_error(last_error: Option<Error>, replies: Seq<NodeReply>) -> Option<Error>
    decreases replies.len(),
{
    if replies.len() == 0 {
        last_error
    } else {
        let next = match replies[0] {
            NodeReply::Response { status, body } => last_error,
            NodeReply::NotFound => Some(Error::NotFound),
            NodeReply::TransportError { message } => Some(Error::NodeError(message)),
        };
        parallel_error(next, replies.drop_first())
    }
}

/// Tallies the replies of a parallel quorum fan-out (one per task, in arrival
/// order) and resolves the vote. Unlike a sequential read, every reply with a
/// readable body is tallied, and nothing stops early.
pub fn dispatch_get_parallel(
    params: &QuorumParams,
    need_quorum: bool,
    has_query: bool,
    replies: Vec<NodeReply>,
) -> (r: Result<GetSuccess, Error>)
    requires
        params.wf(),
    ensures
        get_result_rel(
            *params, need_quorum, has_query,
            parallel_entries(Seq::<(String, usize)>::empty(), replies@),
            parallel_error(None, replies@),
            r,
        ),
{
    let ghost all_replies = replies@;
    let mut tally = VoteTally::new();
    let mut last_error: Option<Error> = None;
    let mut pending = replies;
    proof {
        assert(all_replies.skip(0) =~= all_replies);
    }
    let mut i: usize = 0;
    let n = pending.len();
    while i < n
        invariant
            0 <= i <= n,
            n == all_replies.len(),
            all_replies == replies@,
            pending@ == all_replies.skip(i as int),
            tally.wf(),
            tally.total_spec() <= i,
            parallel_entries(tally.entries_view(), all_replies.skip(i as int))
                == parallel_entries(Seq::<(String, usize)>::empty(), all_replies),
            parallel_error(last_error, all_replies.skip(i as int))
                == parallel_error(None, all_replies),
        decreases n - i,
    {
        proof {
            assert(all_replies.skip(i as int)[0] == all_replies[i as int]);
            assert(all_replies.skip(i as int).drop_first() =~= all_replies.skip(i as int + 1));
        }
        let reply = pending.remove(0);
        match reply {
            NodeReply::Response { status: _, body } => {
                match body {
                    Some(t) => {
                        tally.record(t);
                    },
                    None => {},
                }
            },
            NodeReply::NotFound => {
                last_error = Some(Error::NotFound);
            },
            NodeReply::TransportError { message } => {
                last_error = Some(Error::NodeError(message));
            },
        }
        proof {
            assert(pending@ =~= all_replies.skip(i as int + 1));
        }
        i += 1;
    }
    proof {
        assert(all_replies.skip(n as int) =~= Seq::<NodeReply>::empty());
    }
    match resolve_votes(params, need_quorum, has_query, &tally, &last_error) {
        Ok(v) => Ok(GetSuccess::Value(v)),
        Err(e) => Err(e),
    }
}

/// One node's answer to a raw-bytes GET. For a 200 status the raw bytes are
/// returned as they came; for any other status `text` holds the body decoded
/// as UTF-8 text (`None` when the body is not UTF-8, which is a hard error).
pub enum ByteReply {
    Response { status: u16, body: Vec<u8>, text: Option<String> },
    /// The body could not be read at all: the node is skipped silently.
    BodyUnreadable,
    /// The transport itself reported "object not found".
    NotFound,
    /// A transport failure (a timeout counts as one), with its message.
    TransportError { message: String },
}

/// A whole raw-bytes GET over the candidates in order: the first 200 answer
/// returns its bytes; a non-UTF-8 error body aborts; other failures are
/// remembered as the trailing error until the list is exhausted.
pub open spec fn bytes_run_rel(
    last_error: Option<Error>,
    replies: Seq<ByteReply>,
    r: Result<Vec<u8>, Error>,
) -> bool
    decreases replies.len(),
{
    if replies.len() == 0 {
        match last_error {
            Some(e) => r == Err::<Vec<u8>, Error>(e),
            None => r is Err && r->Err_0 is NodeError
                && r->Err_0->NodeError_0@ == "Couldn't get a result from any node"@,
        }
    } else {
        match replies[0] {
            ByteReply::Response { status, body, text } => {
                if status == 200 {
                    r == Ok::<Vec<u8>, Error>(body)
                } else {
                    match text {
                        Some(t) => bytes_run_rel(
                            Some(Error::NodeError(t)), replies.drop_first(), r,
                        ),
                        None => r is Err && r->Err_0 is NodeError
                            && r->Err_0->NodeError_0@ == "Non UTF8 node response"@,
                    }
                }
            },
            ByteReply::BodyUnreadable => bytes_run_rel(last_error, replies.drop_first(), r),
            ByteReply::NotFound => bytes_run_rel(Some(Error::NotFound), replies.drop_first(), r),
            ByteReply::TransportError { message } => bytes_run_rel(
                Some(Error::NodeError(message)), replies.drop_first(), r,
            ),
        }
    }
}

/// One visit of a candidate during a raw-bytes GET. `None` means "go on to
/// the next candidate"; `Some` carries the finished outcome.
pub fn bytes_step(last_error: &mut Option<Error>, reply: ByteReply) -> (ro: Option<
    Result<Vec<u8>, Error>,
>)
    ensures
        match reply {
            ByteReply::Response { status, body, text } => {
                if status == 200 {
                    ro == Some(Ok::<Vec<u8>, Error>(body)) && *final(last_error) == *old(last_error)
                } else {
                    match text {
                        Some(t) => ro is None && *final(last_error) == Some(Error::NodeError(t)),
                        None => {
                            &&& ro is Some
                            &&& ro->0 is Err
                            &&& ro->0->Err_0 is NodeError
                            &&& ro->0->Err_0->NodeError_0@ == "Non UTF8 node response"@
                            &&& *final(last_error) == *old(last_error)
                        },
                    }
                }
            },
            ByteReply::BodyUnreadable => ro is None && *final(last_error) == *old(last_error),
            ByteReply::NotFound => ro is None && *final(last_error) == Some(Error::NotFound),
            ByteReply::TransportError { message } => ro is None && *final(last_error) == Some(
                Error::NodeError(message),
            ),
        },
{
    match reply {
        ByteReply::Response { status, body, text } => {
            if status == 200 {
                Some(Ok(body))
            } else {
                match text {
                    Some(t) => {
                        *last_error = Some(Error::NodeError(t));
                        None
                    },
                    None => Some(Err(Error::NodeError("Non UTF8 node response".to_owned()))),
                }
            }
        },
        ByteReply::BodyUnreadable => None,
        ByteReply::NotFound => {
            *last_error = Some(Error::NotFound);
            None
        },
        ByteReply::TransportError { message } => {
            *last_error = Some(Error::NodeError(message));
            None
        },
    }
}

/// The aggregate failure of an exhausted candidate list: the last recorded
/// per-node error, or a generic failure when none was recorded.
pub fn last_error_or_generic(last_error: Option<Error>) -> (e: Error)
    ensures
        match last_error {
            Some(le) => e == le,
            None => e is NodeError && e->NodeError_0@ == "Couldn't get a result from any node"@,
        },
{
    match last_error {
        Some(le) => le,
        None => Error::NodeError("Couldn't get a result from any node".to_owned()),
    }
}

/// Runs a whole raw-bytes GET against a fixed list of replies, one per
/// candidate in precedence order, stopping at the first 200 answer.
pub fn dispatch_bytes_sequential(replies: Vec<ByteReply>) -> (r: Result<Vec<u8>, Error>)
    ensures
        bytes_run_rel(None, replies@, r),
{
    let ghost all_replies = replies@;
    let mut pending = replies;
    let mut last_error: Option<Error> = None;
    let mut i: usize = 0;
    let n = pending.len();
    proof {
        assert(all_replies.skip(0) =~= all_replies);
    }
    while i < n
        invariant
            0 <= i <= n,
            n == all_replies.len(),
            all_replies == replies@,
            pending@ == all_replies.skip(i as int),
            forall|rr: Result<Vec<u8>, Error>|
                bytes_run_rel(last_error, all_replies.skip(i as int), rr)
                    ==> #[trigger] bytes_run_rel(None, all_replies, rr),
        decreases n - i,
    {
        proof {
            assert(all_replies.skip(i as int)[0] == all_replies[i as int]);
            assert(all_replies.skip(i as int).drop_first() =~= all_replies.skip(i as int + 1));
        }
        let ghost pre_error = last_error;
        let reply = pending.remove(0);
        let ro = bytes_step(&mut last_error, reply);
        proof {
            assert(pending@ =~= all_replies.skip(i as int + 1));
        }
        match ro {
            Some(x) => {
                proof {
                    assert(bytes_run_rel(pre_error, all_replies.skip(i as int), x));
                }
                return x;
            },
            None => {},
        }
        i += 1;
    }
    proof {
        assert(all_replies.skip(n as int) =~= Seq::<ByteReply>::empty());
    }
    Err(last_error_or_generic(last_error))
}

/// One node's answer to a POST. For a 200 or 201 status, `body` holds the
/// canonical serialized form of the decoded value (`None` when decoding
/// failed); for any other status `text` holds the plain response text.
pub enum PostReply {
    Response { status: u16, body: Option<String>, text: Option<String> },
    /// A transport failure (a timeout counts as one), with its message.
    TransportError { message: String },
}

/// A reply that finishes a POST: a 200 or 201 status with a decodable body.
pub open spec fn is_post_success(reply: PostReply) -> bool {
    match reply {
        PostReply::Response { status, body, text } => (status == 200 || status == 201)
            && body is Some,
        _ => false,
    }
}

/// The returned body of a successful POST reply.
pub open spec fn post_success_body(reply: PostReply) -> String
    recommends
        is_post_success(reply),
{
    reply->Response_body->0
}

/// A whole POST over the candidates in order: the first 200 or 201 answer
/// that decodes is returned; every failure is remembered as the trailing
/// error until the list is exhausted.
pub open spec fn post_run_rel(
    last_error: Option<Error>,
    replies: Seq<PostReply>,
    r: Result<String, Error>,
) -> bool
    decreases replies.len(),
{
    if replies.len() == 0 {
        match last_error {
            Some(e) => r == Err::<String, Error>(e),
            None => r is Err && r->Err_0 is NodeError
                && r->Err_0->NodeError_0@ == "Couldn't get a result from any node"@,
        }
    } else if is_post_success(replies[0]) {
        r == Ok::<String, Error>(post_success_body(replies[0]))
    } else {
        exists|e: Error|
            {
                &&& #[trigger] post_failure_rel(replies[0], Some(e))
                &&& post_run_rel(Some(e), replies.drop_first(), r)
            }
    }
}

/// How a failed POST visit is remembered as the trailing error `e2`.
pub open spec fn post_failure_rel(reply: PostReply, e2: Option<Error>) -> bool {
    match reply {
        PostReply::Response { status, body, text } => {
            if status == 200 || status == 201 {
                body is None && e2 == Some(Error::JsonDecodeError)
            } else {
                match text {
                    Some(t) => e2 == Some(Error::NodeError(t)),
                    None => e2 is Some && e2->0 is NodeError
                        && e2->0->NodeError_0@ == "Couldn't convert node response into text"@,
                }
            }
        },
        PostReply::TransportError { message } => e2 == Some(Error::NodeError(message)),
    }
}

/// A failed first visit folds into the whole-run relation: whatever error it
/// recorded, the rest of the run decides the outcome.
#[verifier::spinoff_prover]
proof fn lemma_post_run_fold(
    pre: Option<Error>,
    e2: Option<Error>,
    replies: Seq<PostReply>,
    r: Result<String, Error>,
)
    requires
        replies.len() > 0,
        post_failure_rel(replies[0], e2),
        post_run_rel(e2, replies.drop_first(), r),
    ensures
        post_run_rel(pre, replies, r),
{
    assert(!is_post_success(replies[0]));
    let e = e2->0;
    assert(e2 == Some(e));
    assert(post_failure_rel(replies[0], Some(e)));
    assert(post_run_rel(Some(e), replies.drop_first(), r));
}

/// One visit of a candidate during a POST. `None` means "go on to the next
/// candidate"; `Some` carries the returned body.
pub fn post_step(last_error: &mut Option<Error>, reply: PostReply) -> (ro: Option<String>)
    ensures
        match reply {
            PostReply::Response { status, body, text } => {
                if status == 200 || status == 201 {
                    match body {
                        Some(b) => ro == Some(b) && *final(last_error) == *old(last_error),
                        None => ro is None && *final(last_error) == Some(Error::JsonDecodeError),
                    }
                } else {
                    &&& ro is None
                    &&& match text {
                        Some(t) => *final(last_error) == Some(Error::NodeError(t)),
                        None => {
                            &&& (*final(last_error)) is Some
                            &&& (*final(last_error))->0 is NodeError
                            &&& (*final(last_error))->0->NodeError_0@
                                == "Couldn't convert node response into text"@
                        },
                    }
                }
            },
            PostReply::TransportError { message } => ro is None && *final(last_error) == Some(
                Error::NodeError(message),
            ),
        },
{
    match reply {
        PostReply::Response { status, body, text } => {
            if status == 200 || status == 201 {
                match body {
                    Some(b) => Some(b),
                    None => {
                        *last_error = Some(Error::JsonDecodeError);
                        None
                    },
                }
            } else {
                *last_error = Some(
                    match text {
                        Some(t) => Error::NodeError(t),
                        None => Error::NodeError(
                            "Couldn't convert node response into text".to_owned(),
                        ),
                    },
                );
                None
            }
        },
        PostReply::TransportError { message } => {
            *last_error = Some(Error::NodeError(message));
            None
        },
    }
}

/// Runs a whole POST against a fixed list of replies, one per candidate in
/// precedence order, stopping at the first decodable 200 or 201 answer.
pub fn dispatch_post_sequential(replies: Vec<PostReply>) -> (r: Result<String, Error>)
    ensures
        post_run_rel(None, replies@, r),
{
    let ghost all_replies = replies@;
    let mut pending = replies;
    let mut last_error: Option<Error> = None;
    let mut i: usize = 0;
    let n = pending.len();
    proof {
        assert(all_replies.skip(0) =~= all_replies);
    }
    while i < n
        invariant
            0 <= i <= n,
            n == all_replies.len(),
            all_replies == replies@,
            pending@ == all_replies.skip(i as int),
            forall|rr: Result<String, Error>|
                post_run_rel(last_error, all_replies.skip(i as int), rr)
                    ==> #[trigger] post_run_rel(None, all_replies, rr),
        decreases n - i,
    {
        proof {
            assert(all_replies.skip(i as int)[0] == all_replies[i as int]);
            assert(all_replies.skip(i as int).drop_first() =~= all_replies.skip(i as int + 1));
        }
        let ghost pre_error = last_error;
        let reply = pending.remove(0);
        let ghost this_reply = reply;
        let ro = post_step(&mut last_error, reply);
        proof {
            assert(pending@ =~= all_replies.skip(i as int + 1));
        }
        match ro {
            Some(b) => {
                proof {
                    assert(post_run_rel(pre_error, all_replies.skip(i as int), Ok(b)));
                }
                return Ok(b);
            },
            None => {},
        }
        proof {
            assert forall|rr: Result<String, Error>|
                post_run_rel(last_error, all_replies.skip(i as int + 1), rr)
                    implies #[trigger] post_run_rel(None, all_replies, rr) by {
                assert(all_replies.skip(i as int)[0] == this_reply);
                assert(post_failure_rel(this_reply, last_error));
                lemma_post_run_fold(pre_error, last_error, all_replies.skip(i as int), rr);
            }
        }
        i += 1;
    }
    proof {
        assert(all_replies.skip(n as int) =~= Seq::<PostReply>::empty());
    }
    Err(last_error_or_generic(last_error))
}

} // verus!
