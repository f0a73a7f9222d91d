//! The health-sync process: probing every configured node is outside work,
//! but what a cycle makes of the probe results — choosing the majority
//! network, caching its parameters and republishing the healthy set — is
//! decided here.

use vstd::prelude::*;
use crate::error::Error;
use crate::node::Node;
use crate::protocol::{NetworkInfo, ProtocolParameters};
use crate::quorum::{best_entry, record_vote, VoteTally};
use crate::shared::{SharedNetworkInfo, SharedNodeSet};

verus! {

/// What one probe of a configured node reported.
pub struct ProbeInfo {
    /// The node's own health self-report.
    pub is_healthy: bool,
    /// The network the node claims to be on.
    pub network_name: String,
    /// The node advertises the remote proof-of-work feature.
    pub has_pow_feature: bool,
    /// The protocol parameters the node reports.
    pub protocol_parameters: ProtocolParameters,
}

impl Clone for ProbeInfo {
    /// An equal copy of the report.
    fn clone(&self) -> (r: Self)
        ensures
            r == *self,
    {
        ProbeInfo {
            is_healthy: self.is_healthy,
            network_name: self.network_name.clone(),
            has_pow_feature: self.has_pow_feature,
            protocol_parameters: self.protocol_parameters.clone(),
        }
    }
}

/// One probed node together with its report; `None` when the probe failed,
/// which simply excludes the node from this cycle.
pub struct ProbeOutcome {
    pub node: Node,
    pub info: Option<ProbeInfo>,
}

impl Clone for ProbeOutcome {
    /// An equal copy of the outcome.
    fn clone(&self) -> (r: Self)
        ensures
            r == *self,
    {
        ProbeOutcome {
            node: self.node.clone(),
            info: match &self.info {
                Some(pi) => Some(pi.clone()),
                None => None,
            },
        }
    }
}

/// A probe that counts: it answered and reported itself healthy.
pub open spec fn is_healthy_probe(p: ProbeOutcome) -> bool {
    p.info is Some && p.info->0.is_healthy
}

/// The vote table over the network names of the healthy probes, in
/// first-seen order.
pub open spec fn network_tally(hp: Seq<ProbeOutcome>, acc: Seq<(String, usize)>) -> Seq<(String, usize)>
    decreases hp.len(),
{
    if hp.len() == 0 {
        acc
    } else {
        network_tally(hp.drop_first(), record_vote(acc, hp[0].info->0.network_name))
    }
}

/// The authoritative network of a cycle: the name reported by the most
/// healthy nodes, ties broken by whichever was encountered first.
pub open spec fn winning_network(hp: Seq<ProbeOutcome>) -> Option<(String, usize)> {
    best_entry(network_tally(hp, Seq::<(String, usize)>::empty()))
}

/// The first healthy probe (at or after `from`) on the network `name`, or
/// `hp.len()` if there is none.
pub open spec fn first_with_name(hp: Seq<ProbeOutcome>, name: Seq<char>, from: int) -> int
    decreases hp.len() - from,
{
    if from < 0 || from >= hp.len() {
        hp.len() as int
    } else if hp[from].info->0.network_name@ == name {
        from
    } else {
        first_with_name(hp, name, from + 1)
    }
}

/// A node of the winning network is published as healthy exactly when the
/// client does local proof of work or the node offers remote proof of work.
pub open spec fn published_probe(p: ProbeOutcome, winner: Seq<char>, local_pow: bool) -> bool {
    p.info->0.network_name@ == winner && (local_pow || p.info->0.has_pow_feature)
}

/// What one sync cycle makes of the probe results.
pub struct SyncOutcome {
    /// The healthy set to publish: a full overwrite of the tracker.
    pub healthy_nodes: Vec<Node>,
    /// The parameters of the winning network's first member, if any network
    /// won at all.
    pub params: Option<ProtocolParameters>,
}

/// Folding one more healthy probe into the network tally records one vote
/// for its network name.
proof fn lemma_network_tally_push(hp: Seq<ProbeOutcome>, acc: Seq<(String, usize)>, p: ProbeOutcome)
    ensures
        network_tally(hp.push(p), acc) == record_vote(
            network_tally(hp, acc), p.info->0.network_name,
        ),
    decreases hp.len(),
{
    reveal_with_fuel(network_tally, 3);
    if hp.len() == 0 {
        assert(hp.push(p)[0] == p);
        assert(hp.push(p).drop_first() =~= Seq::<ProbeOutcome>::empty());
    } else {
        assert(hp.push(p).drop_first() =~= hp.drop_first().push(p));
        assert(hp.push(p)[0] == hp[0]);
        lemma_network_tally_push(hp.drop_first(), record_vote(acc, hp[0].info->0.network_name), p);
    }
}

/// Groups the healthy probe results by reported network, selects the network
/// with the most members (first seen wins ties), and produces the healthy
/// set to publish — members of the winning network that pass the
/// proof-of-work requirement — together with that network's parameters,
/// taken from its first member.
pub fn aggregate_sync(probes: &Vec<ProbeOutcome>, local_pow: bool) -> (r: SyncOutcome)
    ensures
        ({
            let hp = probes@.filter(|p: ProbeOutcome| is_healthy_probe(p));
            match winning_network(hp) {
                None => r.healthy_nodes@ == Seq::<Node>::empty() && r.params is None,
                Some(w) => {
                    &&& r.healthy_nodes@ == hp.filter(
                        |p: ProbeOutcome| published_probe(p, w.0@, local_pow),
                    ).map_values(|p: ProbeOutcome| p.node)
                    &&& ({
                        let k = first_with_name(hp, w.0@, 0);
                        if k < hp.len() {
                            r.params == Some(hp[k].info->0.protocol_parameters)
                        } else {
                            r.params is None
                        }
                    })
                },
            }
        }),
{
    let ghost all = probes@;
    let ghost healthy_pred = |p: ProbeOutcome| is_healthy_probe(p);

    // First pass: keep the healthy probes and tally their networks.
    let mut hp: Vec<ProbeOutcome> = Vec::new();
    let mut tally = VoteTally::new();
    let n = probes.len();
    let mut i: usize = 0;
    while i < n
        invariant
            0 <= i <= n,
            n == all.len(),
            all == probes@,
            hp@ == all.take(i as int).filter(healthy_pred),
            healthy_pred == (|p: ProbeOutcome| is_healthy_probe(p)),
            tally.entries_view() == network_tally(hp@, Seq::<(String, usize)>::empty()),
            tally.wf(),
            tally.total_spec() == hp@.len(),
        decreases n - i,
    {
        proof {
            reveal(Seq::filter);
            assert(all.take(i as int + 1).drop_last() =~= all.take(i as int));
            assert(all.take(i as int + 1).last() == all[i as int]);
        }
        let keep = match &probes[i].info {
            Some(pi) => pi.is_healthy,
            None => false,
        };
        if keep {
            let p = probes[i].clone();
            let name = match &probes[i].info {
                Some(pi) => pi.network_name.clone(),
                None => String::new(),
            };
            proof {
                lemma_network_tally_push(hp@, Seq::<(String, usize)>::empty(), p);
            }
            hp.push(p);
            tally.record(name);
        }
        i += 1;
    }
    proof {
        assert(all.take(n as int) =~= all);
    }

    let winner = tally.best();
    match winner {
        None => SyncOutcome { healthy_nodes: Vec::new(), params: None },
        Some(w) => {
            let wname = w.0;
            let ghost published = |p: ProbeOutcome| published_probe(p, wname@, local_pow);

            // Second pass: publish the winning network's members that pass
            // the proof-of-work requirement; cache the first member's
            // parameters.
            let mut healthy_nodes: Vec<Node> = Vec::new();
            let mut params: Option<ProtocolParameters> = None;
            let m = hp.len();
            let mut j: usize = 0;
            while j < m
                invariant
                    0 <= j <= m,
                    m == hp@.len(),
                    published == (|p: ProbeOutcome| published_probe(p, wname@, local_pow)),
                    forall|t: int| 0 <= t < hp@.len() ==> is_healthy_probe(#[trigger] hp@[t]),
                    healthy_nodes@ == hp@.take(j as int).filter(published).map_values(
                        |p: ProbeOutcome| p.node,
                    ),
                    match params {
                        None => forall|t: int|
                            0 <= t < j ==> (#[trigger] hp@[t]).info->0.network_name@ != wname@,
                        Some(pp) => {
                            let k = first_with_name(hp@, wname@, 0);
                            &&& 0 <= k < j
                            &&& params == Some(hp@[k].info->0.protocol_parameters)
                        },
                    },
                decreases m - j,
            {
                proof {
                    reveal(Seq::filter);
                    assert(hp@.take(j as int + 1).drop_last() =~= hp@.take(j as int));
                    assert(hp@.take(j as int + 1).last() == hp@[j as int]);
                }
                let (name_matches, keep) = match &hp[j].info {
                    Some(pi) => {
                        let nm = pi.network_name == wname;
                        (nm, nm && (local_pow || pi.has_pow_feature))
                    },
                    None => {
                        proof {
                            assert(is_healthy_probe(hp@[j as int]));
                            assert(false);
                        }
                        (false, false)
                    },
                };
                if keep {
                    healthy_nodes.push(hp[j].node.clone());
                    proof {
                        assert(hp@.take(j as int + 1).filter(published).map_values(
                            |p: ProbeOutcome| p.node,
                        ) =~= hp@.take(j as int).filter(published).map_values(
                            |p: ProbeOutcome| p.node,
                        ).push(hp@[j as int].node));
                    }
                } else {
                    proof {
                        assert(hp@.take(j as int + 1).filter(published) =~= hp@.take(
                            j as int,
                        ).filter(published));
                    }
                }
                if name_matches {
                    match &params {
                        None => {
                            proof {
                                lemma_first_with_name_after_miss(hp@, wname@, 0, j as int);
                            }
                            let pp = match &hp[j].info {
                                Some(pi) => pi.protocol_parameters.clone(),
                                None => {
                                    proof {
                                        assert(is_healthy_probe(hp@[j as int]));
                                        assert(false);
                                    }
                                    Default::default()
                                },
                            };
                            params = Some(pp);
                        },
                        Some(_) => {},
                    }
                }
                j += 1;
            }
            proof {
                assert(hp@.take(m as int) =~= hp@);
                if params is None {
                    lemma_first_with_name_after_miss(hp@, wname@, 0, m as int);
                    assert(first_with_name(hp@, wname@, m as int) == m as int);
                }
            }
            SyncOutcome { healthy_nodes, params }
        },
    }
}

/// If no healthy probe before `upto` matches `name`, the search from `from`
/// agrees with the search from `upto`.
proof fn lemma_first_with_name_after_miss(hp: Seq<ProbeOutcome>, name: Seq<char>, from: int, upto: int)
    requires
        0 <= from <= upto <= hp.len(),
        forall|t: int| from <= t < upto ==> (#[trigger] hp[t]).info->0.network_name@ != name,
    ensures
        first_with_name(hp, name, from) == first_with_name(hp, name, upto),
    decreases upto - from,
{
    if from < upto {
        lemma_first_with_name_after_miss(hp, name, from + 1, upto);
    }
}

/// Every node a sync cycle publishes reported the winning network — a node
/// of any other network never enters the health tracker.
pub proof fn lemma_published_nodes_report_winning_network(
    hp: Seq<ProbeOutcome>,
    winner: Seq<char>,
    local_pow: bool,
    j: int,
)
    requires
        0 <= j < hp.filter(|p: ProbeOutcome| published_probe(p, winner, local_pow)).len(),
    ensures
        hp.filter(|p: ProbeOutcome| published_probe(p, winner, local_pow))[j].info->0.network_name@
            == winner,
{
    hp.lemma_filter_pred(|p: ProbeOutcome| published_probe(p, winner, local_pow), j);
}

/// The background health-sync process, seen through its observable effects:
/// each uncancelled cycle overwrites the health tracker once; after
/// cancellation no write ever happens again.
pub struct SyncProcess {
    /// Set once by `cancel`; never cleared.
    pub cancelled: bool,
    /// How many times this process wrote the health tracker.
    pub write_count: u64,
}

impl SyncProcess {
    /// A fresh, running process that has not written yet.
    pub fn new() -> (p: SyncProcess)
        ensures
            !p.cancelled,
            p.write_count == 0,
    {
        SyncProcess { cancelled: false, write_count: 0 }
    }

    /// Delivers the one-shot cancellation signal: no later cycle writes the
    /// tracker, so the write counter stops for good.
    pub fn cancel(&mut self)
        ensures
            final(self).cancelled,
            final(self).write_count == old(self).write_count,
    {
        self.cancelled = true;
    }

    /// Runs one sync cycle over the given probe results: picks the majority
    /// network, caches its parameters into the shared network info, and
    /// atomically republishes the health tracker. A cancelled process does
    /// nothing at all. A failed cycle (a poisoned lock) is reported but
    /// leaves the process running: the next interval simply retries.
    pub fn run_cycle(
        &mut self,
        tracker: &SharedNodeSet,
        network_info: &SharedNetworkInfo,
        probes: &Vec<ProbeOutcome>,
    ) -> (r: Result<(), Error>)
        requires
            old(self).write_count < u64::MAX,
        ensures
            final(self).cancelled == old(self).cancelled,
            old(self).cancelled ==> *final(self) == *old(self) && r is Ok,
            r is Err ==> r == Err::<(), Error>(Error::PoisonError)
                && final(self).write_count == old(self).write_count,
            !old(self).cancelled && r is Ok ==> final(self).write_count == old(
                self,
            ).write_count + 1,
    {
        if self.cancelled {
            return Ok(());
        }
        let current = match network_info.read() {
            Ok(info) => info,
            Err(e) => {
                return Err(e);
            },
        };
        let outcome = aggregate_sync(probes, current.local_pow);
        match outcome.params {
            Some(pp) => {
                let updated = NetworkInfo {
                    protocol_parameters: pp,
                    local_pow: current.local_pow,
                    fallback_to_local_pow: current.fallback_to_local_pow,
                    tips_interval: current.tips_interval,
                };
                match network_info.replace(updated) {
                    Ok(()) => {},
                    Err(e) => {
                        return Err(e);
                    },
                }
            },
            None => {},
        }
        match tracker.replace(outcome.healthy_nodes) {
            Ok(()) => {
                self.write_count = self.write_count + 1;
                Ok(())
            },
            Err(e) => Err(e),
        }
    }
}

/// Once the cancellation signal is delivered, no later cycle writes the
/// health tracker: along any run of the process from a cancelled state, the
/// write counter never moves again.
pub proof fn lemma_cancelled_process_never_writes(states: Seq<SyncProcess>)
    requires
        states.len() > 0,
        states[0].cancelled,
        forall|i: int|
            0 <= i < states.len() - 1 ==> ((#[trigger] states[i]).cancelled ==> states[i + 1]
                == states[i]),
    ensures
        forall|i: int|
            0 <= i < states.len() ==> (#[trigger] states[i]).write_count
                == states[0].write_count,
{
    assert forall|i: int|
        0 <= i < states.len() implies (#[trigger] states[i]).write_count
        == states[0].write_count by {
        lemma_cancelled_prefix(states, i);
    }
}

/// Along a cancelled run, every state equals the first.
proof fn lemma_cancelled_prefix(states: Seq<SyncProcess>, i: int)
    requires
        states.len() > 0,
        states[0].cancelled,
        forall|t: int|
            0 <= t < states.len() - 1 ==> ((#[trigger] states[t]).cancelled ==> states[t + 1]
                == states[t]),
        0 <= i < states.len(),
    ensures
        states[i] == states[0],
    decreases i,
{
    if i > 0 {
        lemma_cancelled_prefix(states, i - 1);
        assert(states[i - 1].cancelled);
        assert(states[i - 1 + 1] == states[i - 1]);
    }
}

} // verus!
