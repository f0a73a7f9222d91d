//! Vote tallying and resolution for quorum reads.

use vstd::prelude::*;
use crate::error::Error;

verus! {

/// Quorum configuration of a node manager.
#[derive(Clone, Copy, Debug, PartialEq, Eq, Structural)]
pub struct QuorumParams {
    /// Whether quorum voting is configured at all.
    pub quorum_enabled: bool,
    /// How many nodes take part in a quorum read.
    pub min_quorum_size: usize,
    /// The percentage of `min_quorum_size` that must agree.
    pub quorum_threshold: usize,
}

impl QuorumParams {
    /// The threshold is a percentage, clamped at configuration time.
    pub open spec fn wf(self) -> bool {
        self.quorum_threshold <= 100
    }
}

/// Quorum is waived entirely: voting is off, not required for this call, or
/// a query string is present (query-bearing endpoints are exempt because
/// nodes legitimately hold different amounts of history).
pub open spec fn quorum_waived(params: QuorumParams, need_quorum: bool, has_query: bool) -> bool {
    !params.quorum_enabled || !need_quorum || has_query
}

/// Votes needed for agreement: `min_quorum_size × quorum_threshold / 100`,
/// rounded down.
pub open spec fn required_votes(min_quorum_size: int, quorum_threshold: int) -> int {
    min_quorum_size * quorum_threshold / 100
}

/// The first index of `key` in the vote table at or after `from`, or the
/// table's length if `key` is absent there.
pub open spec fn key_index(entries: Seq<(String, usize)>, key: Seq<char>, from: int) -> int
    decreases entries.len() - from,
{
    if from < 0 || from >= entries.len() {
        entries.len() as int
    } else if entries[from].0@ == key {
        from
    } else {
        key_index(entries, key, from + 1)
    }
}

/// One vote for `body`: an existing entry with the same text is incremented,
/// otherwise a fresh entry is appended, keeping first-seen order.
pub open spec fn record_vote(entries: Seq<(String, usize)>, body: String) -> Seq<(String, usize)> {
    let j = key_index(entries, body@, 0);
    if j < entries.len() {
        entries.update(j, (entries[j].0, (entries[j].1 + 1) as usize))
    } else {
        entries.push((body, 1usize))
    }
}

/// The running best entry: a strictly larger count replaces the accumulator,
/// so ties keep the earlier entry.
pub open spec fn best_from(entries: Seq<(String, usize)>, acc: (String, usize)) -> (String, usize)
    decreases entries.len(),
{
    if entries.len() == 0 {
        acc
    } else {
        best_from(entries.drop_first(), if entries[0].1 > acc.1 { entries[0] } else { acc })
    }
}

/// The first entry with the highest count, if any vote was cast.
pub open spec fn best_entry(entries: Seq<(String, usize)>) -> Option<(String, usize)> {
    if entries.len() == 0 {
        None
    } else {
        Some(best_from(entries.drop_first(), entries[0]))
    }
}

/// The vote table of a quorum read: serialized response bodies with their
/// vote counts in first-seen order, plus the total number of successes seen.
pub struct VoteTally {
    entries: Vec<(String, usize)>,
    total: usize,
}

impl VoteTally {
    /// The table in first-seen order.
    pub closed spec fn entries_view(self) -> Seq<(String, usize)> {
        self.entries@
    }

    /// How many successful responses were tallied.
    pub closed spec fn total_spec(self) -> int {
        self.total as int
    }

    /// No count can exceed the number of tallied responses.
    pub closed spec fn wf(self) -> bool {
        forall|j: int| 0 <= j < self.entries@.len() ==> (#[trigger] self.entries@[j]).1 <= self.total
    }

    /// How many successful responses were tallied, as a value.
    pub fn total(&self) -> (r: usize)
        ensures
            r as int == self.total_spec(),
    {
        self.total
    }

    /// An empty table.
    pub fn new() -> (t: VoteTally)
        ensures
            t.entries_view() == Seq::<(String, usize)>::empty(),
            t.total_spec() == 0,
            t.wf(),
    {
        VoteTally { entries: Vec::new(), total: 0 }
    }

    /// Casts one vote for `body`.
    pub fn record(&mut self, body: String)
        requires
            old(self).wf(),
            old(self).total_spec() < usize::MAX,
        ensures
            final(self).entries_view() == record_vote(old(self).entries_view(), body),
            final(self).entries_view().len() > 0,
            final(self).total_spec() == old(self).total_spec() + 1,
            final(self).wf(),
    {
        let n = self.entries.len();
        let mut j: usize = 0;
        while j < n && !(self.entries[j].0 == body)
            invariant
                0 <= j <= n,
                n == self.entries@.len(),
                forall|k: int| 0 <= k < j ==> (#[trigger] self.entries@[k]).0@ != body@,
        decreases n - j,
        {
            j += 1;
        }
        proof {
            lemma_key_index_after_miss(self.entries@, body@, 0, j as int);
        }
        if j < n {
            let count = self.entries[j].1;
            let key = self.entries[j].0.clone();
            self.entries[j] = (key, count + 1);
        } else {
            self.entries.push((body, 1));
        }
        self.total = self.total + 1;
        proof {
            assert(self.entries@ =~= record_vote(old(self).entries_view(), body));
        }
    }

    /// The first entry with the highest count, cloned out of the table.
    pub fn best(&self) -> (r: Option<(String, usize)>)
        ensures
            r == best_entry(self.entries_view()),
    {
        let n = self.entries.len();
        if n == 0 {
            return None;
        }
        let mut acc: (String, usize) = (self.entries[0].0.clone(), self.entries[0].1);
        let mut i: usize = 1;
        proof {
            assert(self.entries@.skip(1) =~= self.entries@.drop_first());
        }
        while i < n
            invariant
                1 <= i <= n,
                n == self.entries@.len(),
                best_from(self.entries@.skip(i as int), acc)
                    == best_from(self.entries@.drop_first(), self.entries@[0]),
            decreases n - i,
        {
            proof {
                assert(self.entries@.skip(i as int).drop_first() =~= self.entries@.skip(i as int + 1));
                assert(self.entries@.skip(i as int)[0] == self.entries@[i as int]);
            }
            if self.entries[i].1 > acc.1 {
                acc = (self.entries[i].0.clone(), self.entries[i].1);
            }
            i += 1;
        }
        proof {
            assert(self.entries@.skip(n as int) =~= Seq::<(String, usize)>::empty());
        }
        Some(acc)
    }
}

/// What the running best satisfies: it dominates the accumulator and every
/// entry, and unless it is the accumulator itself, it is the first entry
/// that beat everything before it.
proof fn lemma_best_from_first_max(entries: Seq<(String, usize)>, acc: (String, usize))
    ensures
        ({
            let b = best_from(entries, acc);
            &&& acc.1 <= b.1
            &&& forall|i: int| 0 <= i < entries.len() ==> (#[trigger] entries[i]).1 <= b.1
            &&& (b == acc || exists|k: int|
                {
                    &&& 0 <= k < entries.len()
                    &&& #[trigger] entries[k] == b
                    &&& b.1 > acc.1
                    &&& forall|i: int| 0 <= i < k ==> (#[trigger] entries[i]).1 < b.1
                })
        }),
    decreases entries.len(),
{
    if entries.len() > 0 {
        let acc2 = if entries[0].1 > acc.1 {
            entries[0]
        } else {
            acc
        };
        lemma_best_from_first_max(entries.drop_first(), acc2);
        let b = best_from(entries, acc);
        assert(forall|i: int|
            1 <= i < entries.len() ==> entries[i] == #[trigger] entries.drop_first()[i - 1]);
        assert forall|i: int| 0 <= i < entries.len() implies (#[trigger] entries[i]).1 <= b.1 by {
            if i == 0 {
                assert(entries[0].1 <= acc2.1);
            } else {
                assert(entries.drop_first()[i - 1].1 <= b.1);
            }
        }
        if b == acc2 {
            if entries[0].1 > acc.1 {
                assert(entries[0] == b);
                assert(forall|i: int| 0 <= i < 0 ==> (#[trigger] entries[i]).1 < b.1);
            }
        } else {
            let k = choose|k: int|
                {
                    &&& 0 <= k < entries.drop_first().len()
                    &&& #[trigger] entries.drop_first()[k] == b
                    &&& b.1 > acc2.1
                    &&& forall|i: int|
                        0 <= i < k ==> (#[trigger] entries.drop_first()[i]).1 < b.1
                };
            assert(entries[k + 1] == b);
            assert forall|i: int| 0 <= i < k + 1 implies (#[trigger] entries[i]).1 < b.1 by {
                if i == 0 {
                    assert(acc2.1 >= entries[0].1);
                } else {
                    assert(entries.drop_first()[i - 1].1 < b.1);
                }
            }
        }
    }
}

/// The winning entry of a non-empty vote table holds the highest count, and
/// among the entries with that count it is the one seen first: the tally is
/// deterministic given the received results, ties broken by insertion order.
pub proof fn lemma_best_entry_first_seen_maximum(entries: Seq<(String, usize)>)
    requires
        entries.len() > 0,
    ensures
        ({
            let b = best_entry(entries).unwrap();
            &&& forall|i: int| 0 <= i < entries.len() ==> (#[trigger] entries[i]).1 <= b.1
            &&& exists|k: int|
                {
                    &&& 0 <= k < entries.len()
                    &&& #[trigger] entries[k] == b
                    &&& forall|i: int| 0 <= i < k ==> (#[trigger] entries[i]).1 < b.1
                }
        }),
{
    lemma_best_from_first_max(entries.drop_first(), entries[0]);
    let b = best_entry(entries).unwrap();
    assert(forall|i: int|
        1 <= i < entries.len() ==> entries[i] == #[trigger] entries.drop_first()[i - 1]);
    assert forall|i: int| 0 <= i < entries.len() implies (#[trigger] entries[i]).1 <= b.1 by {
        if i > 0 {
            assert(entries.drop_first()[i - 1].1 <= b.1);
        }
    }
    if b == entries[0] {
        assert(entries[0] == b && (forall|i: int| 0 <= i < 0 ==> (#[trigger] entries[i]).1 < b.1));
    } else {
        let k = choose|k: int|
            {
                &&& 0 <= k < entries.drop_first().len()
                &&& #[trigger] entries.drop_first()[k] == b
                &&& b.1 > entries[0].1
                &&& forall|i: int| 0 <= i < k ==> (#[trigger] entries.drop_first()[i]).1 < b.1
            };
        assert(entries[k + 1] == b);
        assert forall|i: int| 0 <= i < k + 1 implies (#[trigger] entries[i]).1 < b.1 by {
            if i > 0 {
                assert(entries.drop_first()[i - 1].1 < b.1);
            }
        }
    }
}

/// If no entry before `upto` matches `key`, the search from 0 agrees with the
/// search from `upto`.
proof fn lemma_key_index_after_miss(entries: Seq<(String, usize)>, key: Seq<char>, from: int, upto: int)
    requires
        0 <= from <= upto <= entries.len(),
        forall|k: int| from <= k < upto ==> (#[trigger] entries[k]).0@ != key,
    ensures
        key_index(entries, key, from) == key_index(entries, key, upto),
    decreases upto - from,
{
    if from < upto {
        lemma_key_index_after_miss(entries, key, from + 1, upto);
    }
}

/// How the outcome of a quorum read relates to the final vote table: the
/// first best value wins; when quorum is waived it is accepted outright;
/// otherwise it needs `min_quorum_size × quorum_threshold / 100` votes; with
/// an empty table the last recorded error (or a generic failure) surfaces.
pub open spec fn resolve_rel(
    params: QuorumParams,
    need_quorum: bool,
    has_query: bool,
    entries: Seq<(String, usize)>,
    last_error: Option<Error>,
    r: Result<String, Error>,
) -> bool {
    match best_entry(entries) {
        Some(b) => {
            if quorum_waived(params, need_quorum, has_query)
                || b.1 >= required_votes(params.min_quorum_size as int, params.quorum_threshold as int) {
                r == Ok::<String, Error>(b.0)
            } else {
                r == Err::<String, Error>(Error::QuorumThresholdError {
                    quorum_size: b.1,
                    minimum_threshold: params.min_quorum_size,
                })
            }
        },
        None => {
            match last_error {
                Some(e) => r == Err::<String, Error>(e),
                None => r is Err && r->Err_0 is NodeError
                    && r->Err_0->NodeError_0@ == "Couldn't get a result from any node"@,
            }
        },
    }
}

/// Number of votes needed for the configured quorum.
fn required_votes_exec(params: &QuorumParams) -> (r: usize)
    requires
        params.wf(),
    ensures
        r as int == required_votes(params.min_quorum_size as int, params.quorum_threshold as int),
        r <= params.min_quorum_size,
{
    proof {
        let m = params.min_quorum_size as int;
        let t = params.quorum_threshold as int;
        assert(m * t / 100 <= m && 0 <= m * t <= m * 100) by (nonlinear_arith)
            requires 0 <= m <= usize::MAX, 0 <= t <= 100,
        ;
    }
    let wide: u128 = (params.min_quorum_size as u128) * (params.quorum_threshold as u128) / 100;
    wide as usize
}

/// Resolves a finished quorum read: picks the first value with the highest
/// vote count, accepts it outright when quorum is waived, otherwise holds it
/// against the threshold; with no value at all, surfaces the last recorded
/// per-node error or a generic failure.
pub fn resolve_votes(
    params: &QuorumParams,
    need_quorum: bool,
    has_query: bool,
    tally: &VoteTally,
    last_error: &Option<Error>,
) -> (r: Result<String, Error>)
    requires
        params.wf(),
    ensures
        resolve_rel(*params, need_quorum, has_query, tally.entries_view(), *last_error, r),
{
    match tally.best() {
        Some(b) => {
            let needed = required_votes_exec(params);
            if !params.quorum_enabled || !need_quorum || has_query || b.1 >= needed {
                Ok(b.0)
            } else {
                Err(Error::QuorumThresholdError {
                    quorum_size: b.1,
                    minimum_threshold: params.min_quorum_size,
                })
            }
        },
        None => {
            match last_error {
                Some(e) => Err(e.clone()),
                None => Err(Error::NodeError("Couldn't get a result from any node".to_owned())),
            }
        },
    }
}

} // verus!
