//! Candidate selection: the ordered, deduplicated list of nodes that a
//! dispatch call will try, built fresh for every request.

use vstd::prelude::*;
use vstd::string::StringSliceAdditionalSpecFns;
use crate::error::Error;
use crate::node::{Node, NodeAuth};

verus! {

/// True if some node in `s` has the address `url`.
pub open spec fn has_url(s: Seq<Node>, url: Seq<char>) -> bool {
    exists|i: int| 0 <= i < s.len() && s[i].url@ == url
}

/// Appends `n` unless a node with its address is already present.
pub open spec fn push_if_new(acc: Seq<Node>, n: Node) -> Seq<Node> {
    if has_url(acc, n.url@) {
        acc
    } else {
        acc.push(n)
    }
}

/// Folds `push_if_new` over `ns` from the front.
pub open spec fn append_new(acc: Seq<Node>, ns: Seq<Node>) -> Seq<Node>
    decreases ns.len(),
{
    if ns.len() == 0 {
        acc
    } else {
        append_new(push_if_new(acc, ns[0]), ns.drop_first())
    }
}

/// The candidate list before disabled nodes are dropped: the permanodes first
/// (when they are preferred), then the primary PoW node (when requested),
/// then the primary node, then the pool, each node added only if its address
/// has not been seen yet.
pub open spec fn raw_candidates(
    permanodes: Seq<Node>,
    use_permanodes: bool,
    pow_node: Option<Node>,
    use_pow_node: bool,
    primary: Option<Node>,
    pool: Seq<Node>,
) -> Seq<Node> {
    let s0 = if use_permanodes {
        append_new(Seq::empty(), permanodes)
    } else {
        Seq::empty()
    };
    let s1 = if use_pow_node && pow_node is Some {
        push_if_new(s0, pow_node.unwrap())
    } else {
        s0
    };
    let s2 = if primary is Some {
        push_if_new(s1, primary.unwrap())
    } else {
        s1
    };
    append_new(s2, pool)
}

/// The enabled nodes of `s`, in order.
pub open spec fn enabled(s: Seq<Node>) -> Seq<Node> {
    s.filter(|n: Node| !n.disabled)
}

/// The view of an optional query string.
pub open spec fn query_view(q: Option<&str>) -> Option<Seq<char>> {
    match q {
        Some(s) => Some(s@),
        None => None,
    }
}

/// The view of an optional owned query string.
pub open spec fn owned_query_view(q: Option<String>) -> Option<Seq<char>> {
    match q {
        Some(s) => Some(s@),
        None => None,
    }
}

/// `out` is `base` with `path` and `query` stamped onto every node; the
/// stored nodes themselves are never mutated.
pub open spec fn stamped(
    out: Seq<Node>,
    base: Seq<Node>,
    path: Seq<char>,
    query: Option<Seq<char>>,
) -> bool {
    &&& out.len() == base.len()
    &&& forall|i: int| 0 <= i < out.len() ==> {
        &&& (#[trigger] out[i]).url == base[i].url
        &&& out[i].path@ == path
        &&& owned_query_view(out[i].query) == query
        &&& out[i].auth == base[i].auth
        &&& out[i].disabled == base[i].disabled
    }
}

/// How a produced candidate list relates to the configuration it was built
/// from: the raw precedence order with disabled nodes dropped, failing with
/// `SyncedNodePoolEmpty` exactly when nothing remains, and every survivor
/// stamped with the request path and query.
pub open spec fn candidates_rel(
    permanodes: Seq<Node>,
    use_permanodes: bool,
    pow_node: Option<Node>,
    use_pow_node: bool,
    primary: Option<Node>,
    pool: Seq<Node>,
    path: Seq<char>,
    query: Option<Seq<char>>,
    r: Result<Vec<Node>, Error>,
) -> bool {
    let kept = enabled(
        raw_candidates(permanodes, use_permanodes, pow_node, use_pow_node, primary, pool),
    );
    &&& (r is Err <==> kept.len() == 0)
    &&& (r is Err ==> r == Err::<Vec<Node>, Error>(Error::SyncedNodePoolEmpty))
    &&& (r is Ok ==> stamped(r->Ok_0@, kept, path, query))
    &&& (r is Ok ==> forall|i: int| 0 <= i < r->Ok_0@.len() ==> !(#[trigger] r->Ok_0@[i]).disabled)
}

/// True if some node of `v` has the same address as `url`.
pub(crate) fn contains_url(v: &Vec<Node>, url: &String) -> (r: bool)
    ensures
        r == has_url(v@, url@),
{
    let n = v.len();
    let mut i: usize = 0;
    while i < n
        invariant
            0 <= i <= n,
            n == v@.len(),
            forall|j: int| 0 <= j < i ==> v@[j].url@ != url@,
        decreases n - i,
    {
        if v[i].url == *url {
            return true;
        }
        i += 1;
    }
    false
}

/// A copy of optional credentials, equal as a value.
pub(crate) fn clone_opt_auth(a: &Option<NodeAuth>) -> (r: Option<NodeAuth>)
    ensures
        r == *a,
{
    match a {
        Some(x) => Some(x.clone()),
        None => None,
    }
}

/// Adds every node of `ns` whose address is new to `acc`, in order.
fn extend_new(acc: &mut Vec<Node>, ns: &Vec<Node>)
    ensures
        final(acc)@ == append_new(old(acc)@, ns@),
{
    let n = ns.len();
    let mut i: usize = 0;
    proof {
        assert(ns@.skip(0) =~= ns@);
    }
    while i < n
        invariant
            0 <= i <= n,
            n == ns@.len(),
            append_new(acc@, ns@.skip(i as int)) == append_new(old(acc)@, ns@),
        decreases n - i,
    {
        proof {
            assert(ns@.skip(i as int).drop_first() =~= ns@.skip(i as int + 1));
            assert(ns@.skip(i as int)[0] == ns@[i as int]);
        }
        if !contains_url(acc, &ns[i].url) {
            acc.push(ns[i].clone());
        }
        i += 1;
    }
    proof {
        assert(ns@.skip(n as int) =~= Seq::<Node>::empty());
    }
}

/// Adds `n` to `acc` if its address is new.
fn push_new(acc: &mut Vec<Node>, n: &Node)
    ensures
        final(acc)@ == push_if_new(old(acc)@, *n),
{
    if !contains_url(acc, &n.url) {
        acc.push(n.clone());
    }
}

/// Builds the per-request candidate list: permanodes (when preferred), the
/// primary PoW node (when requested), the primary node, then the pool, each
/// deduplicated by address; disabled nodes are dropped; every remaining node
/// is stamped with the request path and query. Fails with
/// `SyncedNodePoolEmpty` exactly when nothing remains.
pub fn assemble_candidates(
    permanodes: &Vec<Node>,
    use_permanodes: bool,
    pow_node: &Option<Node>,
    use_pow_node: bool,
    primary: &Option<Node>,
    pool: &Vec<Node>,
    path: &str,
    query: Option<&str>,
) -> (r: Result<Vec<Node>, Error>)
    ensures
        candidates_rel(
            permanodes@, use_permanodes, *pow_node, use_pow_node, *primary, pool@,
            path@, query_view(query), r,
        ),
{
    let mut acc: Vec<Node> = Vec::new();
    if use_permanodes {
        extend_new(&mut acc, permanodes);
    }
    if use_pow_node {
        if let Some(p) = pow_node {
            push_new(&mut acc, p);
        }
    }
    if let Some(p) = primary {
        push_new(&mut acc, p);
    }
    extend_new(&mut acc, pool);
    let ghost raw = raw_candidates(
        permanodes@,
        use_permanodes,
        *pow_node,
        use_pow_node,
        *primary,
        pool@,
    );
    assert(acc@ == raw);

    // Drop the disabled nodes, keeping the order.
    let mut kept: Vec<Node> = Vec::new();
    let n = acc.len();
    let mut i: usize = 0;
    while i < n
        invariant
            0 <= i <= n,
            n == acc@.len(),
            kept@ == acc@.take(i as int).filter(|nd: Node| !nd.disabled),
        decreases n - i,
    {
        proof {
            reveal(Seq::filter);
            assert(acc@.take(i as int + 1).drop_last() =~= acc@.take(i as int));
            assert(acc@.take(i as int + 1).last() == acc@[i as int]);
        }
        if !acc[i].disabled {
            kept.push(acc[i].clone());
        }
        i += 1;
    }
    proof {
        assert(acc@.take(n as int) =~= acc@);
    }

    if kept.len() == 0 {
        return Err(Error::SyncedNodePoolEmpty);
    }

    // Stamp the request path and query onto derived copies.
    let m = kept.len();
    let mut out: Vec<Node> = Vec::new();
    let mut i: usize = 0;
    while i < m
        invariant
            0 <= i <= m,
            m == kept@.len(),
            out@.len() == i,
            forall|j: int| 0 <= j < i ==> {
                &&& (#[trigger] out@[j]).url == kept@[j].url
                &&& out@[j].path@ == path@
                &&& owned_query_view(out@[j].query) == query_view(query)
                &&& out@[j].auth == kept@[j].auth
                &&& out@[j].disabled == kept@[j].disabled
            },
        decreases m - i,
    {
        let q: Option<String> = match query {
            Some(qs) => Some(qs.to_owned()),
            None => None,
        };
        let stamped_node = Node {
            url: kept[i].url.clone(),
            path: path.to_owned(),
            query: q,
            auth: clone_opt_auth(&kept[i].auth),
            disabled: kept[i].disabled,
        };
        out.push(stamped_node);
        i += 1;
    }
    proof {
        assert forall|j: int| 0 <= j < out@.len() implies !(#[trigger] out@[j]).disabled by {
            raw.lemma_filter_pred(|nd: Node| !nd.disabled, j);
        }
    }
    Ok(out)
}

/// Every node of a produced candidate list is enabled: a disabled node never
/// appears, even when it is the only configured node.
pub proof fn lemma_disabled_nodes_never_selected(s: Seq<Node>, i: int)
    requires
        0 <= i < enabled(s).len(),
    ensures
        !enabled(s)[i].disabled,
{
    s.lemma_filter_pred(|nd: Node| !nd.disabled, i);
}

/// `append_new` keeps what was already accumulated as an unchanged prefix.
proof fn lemma_append_new_prefix(acc: Seq<Node>, ns: Seq<Node>)
    ensures
        append_new(acc, ns).len() >= acc.len(),
        append_new(acc, ns).take(acc.len() as int) == acc,
        forall|i: int| 0 <= i < acc.len() ==> #[trigger] append_new(acc, ns)[i] == acc[i],
    decreases ns.len(),
{
    if ns.len() == 0 {
        assert(append_new(acc, ns).take(acc.len() as int) =~= acc);
    } else {
        let acc1 = push_if_new(acc, ns[0]);
        lemma_append_new_prefix(acc1, ns.drop_first());
        assert(append_new(acc, ns).take(acc.len() as int) =~= acc);
    }
}

/// Filtering keeps a head that satisfies the predicate at the head.
proof fn lemma_filter_head(s: Seq<Node>, pred: spec_fn(Node) -> bool)
    requires
        s.len() > 0,
        pred(s[0]),
    ensures
        s.filter(pred).len() > 0,
        s.filter(pred)[0] == s[0],
    decreases s.len(),
{
    reveal(Seq::filter);
    if s.len() == 1 {
    } else {
        assert(s.drop_last()[0] == s[0]);
        lemma_filter_head(s.drop_last(), pred);
    }
}

/// With permanode preference on, the deduplicated permanodes form the head
/// of the raw candidate list, before the PoW node, the primary node and
/// every pool node; dropping disabled nodes filters in place, so the
/// precedence survives into the produced list.
pub proof fn lemma_permanodes_head_candidate_list(
    permanodes: Seq<Node>,
    pow_node: Option<Node>,
    use_pow_node: bool,
    primary: Option<Node>,
    pool: Seq<Node>,
)
    ensures
        ({
            let pf = append_new(Seq::<Node>::empty(), permanodes);
            let raw = raw_candidates(permanodes, true, pow_node, use_pow_node, primary, pool);
            &&& raw.len() >= pf.len()
            &&& raw.take(pf.len() as int) == pf
        }),
{
    let pf = append_new(Seq::<Node>::empty(), permanodes);
    let s1 = if use_pow_node && pow_node is Some {
        push_if_new(pf, pow_node.unwrap())
    } else {
        pf
    };
    let s2 = if primary is Some {
        push_if_new(s1, primary.unwrap())
    } else {
        s1
    };
    assert(s1.take(pf.len() as int) =~= pf);
    assert(s2.take(pf.len() as int) =~= pf);
    lemma_append_new_prefix(s2, pool);
    let raw = raw_candidates(permanodes, true, pow_node, use_pow_node, primary, pool);
    assert(raw.take(pf.len() as int) =~= pf);
}

/// With permanode preference off and PoW preference off, an enabled primary
/// node always heads the candidate list: it appears before every general
/// pool node.
pub proof fn lemma_primary_node_first(
    permanodes: Seq<Node>,
    pow_node: Option<Node>,
    primary: Node,
    pool: Seq<Node>,
)
    requires
        !primary.disabled,
    ensures
        ({
            let kept = enabled(raw_candidates(permanodes, false, pow_node, false, Some(primary), pool));
            kept.len() > 0 && kept[0] == primary
        }),
{
    let base = push_if_new(Seq::empty(), primary);
    assert(!has_url(Seq::empty(), primary.url@));
    assert(base == Seq::empty().push(primary));
    assert(base[0] == primary);
    let raw = raw_candidates(permanodes, false, pow_node, false, Some(primary), pool);
    lemma_append_new_prefix(base, pool);
    assert(raw[0] == primary);
    lemma_filter_head(raw, |nd: Node| !nd.disabled);
}

/// The same, seen on a produced list: with permanode preference off and PoW
/// preference off, an enabled primary node makes the list non-empty and
/// stands at its head, before every general pool node.
pub proof fn lemma_primary_node_heads_produced_list(
    permanodes: Seq<Node>,
    pow_node: Option<Node>,
    primary: Node,
    pool: Seq<Node>,
    path: Seq<char>,
    query: Option<Seq<char>>,
    r: Result<Vec<Node>, Error>,
)
    requires
        !primary.disabled,
        candidates_rel(permanodes, false, pow_node, false, Some(primary), pool, path, query, r),
    ensures
        r is Ok,
        r->Ok_0@.len() > 0,
        r->Ok_0@[0].url == primary.url,
{
    lemma_primary_node_first(permanodes, pow_node, primary, pool);
}

} // verus!
