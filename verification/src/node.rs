//! Nodes: the endpoints of the ledger network.

use vstd::prelude::*;
use vstd::string::StringSliceAdditionalSpecFns;
use vstd::string::StrSliceExecFns;
use crate::error::Error;

verus! {

/// Credentials for a node: an optional JWT and an optional name/password
/// pair for basic authentication.
#[derive(Debug, PartialEq, Eq)]
pub struct NodeAuth {
    pub jwt: Option<String>,
    pub basic_auth_name_pwd: Option<(String, String)>,
}

impl Clone for NodeAuth {
    /// An equal copy of the credentials.
    fn clone(&self) -> (r: Self)
        ensures
            r == *self,
    {
        NodeAuth {
            jwt: match &self.jwt {
                Some(s) => Some(s.clone()),
                None => None,
            },
            basic_auth_name_pwd: match &self.basic_auth_name_pwd {
                Some(p) => Some((p.0.clone(), p.1.clone())),
                None => None,
            },
        }
    }
}

/// One addressable network endpoint.
///
/// `url` is the configured base address. `path` and `query` are empty on a
/// stored node; they are stamped onto the derived copies that a dispatch call
/// produces, so the stored node is never mutated. A node's identity is its
/// address alone: two nodes with the same `url` are the same node, whatever
/// their credentials.
#[derive(Debug)]
pub struct Node {
    pub url: String,
    pub path: String,
    pub query: Option<String>,
    pub auth: Option<NodeAuth>,
    pub disabled: bool,
}

impl Clone for Node {
    /// An equal copy of the node.
    fn clone(&self) -> (r: Self)
        ensures
            r == *self,
    {
        Node {
            url: self.url.clone(),
            path: self.path.clone(),
            query: match &self.query {
                Some(q) => Some(q.clone()),
                None => None,
            },
            auth: match &self.auth {
                Some(a) => Some(a.clone()),
                None => None,
            },
            disabled: self.disabled,
        }
    }
}

impl Node {
    /// Same endpoint: address identity ignores auth, path, query and flags.
    pub open spec fn same_url(self, other: Node) -> bool {
        self.url@ == other.url@
    }

    /// A plain enabled node without credentials.
    pub fn new(url: String) -> (n: Node)
        ensures
            n.url@ == url@,
            n.path@ == Seq::<char>::empty(),
            n.query is None,
            n.auth is None,
            !n.disabled,
    {
        Node { url, path: String::new(), query: None, auth: None, disabled: false }
    }

    /// A node with optional credentials.
    pub fn with_auth(url: String, auth: Option<NodeAuth>) -> (n: Node)
        ensures
            n.url@ == url@,
            n.path@ == Seq::<char>::empty(),
            n.query is None,
            n.auth == auth,
            !n.disabled,
    {
        Node { url, path: String::new(), query: None, auth, disabled: false }
    }
}

/// An equal copy of a node list.
pub fn clone_nodes(v: &Vec<Node>) -> (r: Vec<Node>)
    ensures
        r@ == v@,
{
    let mut out: Vec<Node> = Vec::new();
    let n = v.len();
    let mut i: usize = 0;
    while i < n
        invariant
            0 <= i <= n,
            n == v@.len(),
            out@ == v@.take(i as int),
        decreases n - i,
    {
        out.push(v[i].clone());
        proof {
            assert(out@ =~= v@.take(i as int + 1));
        }
        i += 1;
    }
    proof {
        assert(v@.take(n as int) =~= v@);
    }
    out
}

/// Character-wise string equality.
pub fn str_eq(a: &str, b: &str) -> (r: bool)
    ensures
        r == (a@ == b@),
{
    let la = a.unicode_len();
    let lb = b.unicode_len();
    if la != lb {
        proof {
            if a@ == b@ {
                assert(a@.len() == b@.len());
            }
        }
        return false;
    }
    let mut i: usize = 0;
    while i < la
        invariant
            0 <= i <= la,
            la as nat == a@.len(),
            la as nat == b@.len(),
            forall|j: int| 0 <= j < i ==> a@[j] == b@[j],
        decreases la - i,
    {
        if a.get_char(i) != b.get_char(i) {
            return false;
        }
        i += 1;
    }
    proof {
        assert(a@ =~= b@);
    }
    true
}

/// The first position of `c` in `b` at or after `from`, or `b.len()` if `c`
/// does not occur there.
pub open spec fn find_byte(b: Seq<u8>, c: u8, from: int) -> int
    decreases b.len() - from,
{
    if from < 0 || from >= b.len() {
        b.len() as int
    } else if b[from] == c {
        from
    } else {
        find_byte(b, c, from + 1)
    }
}

/// A well-formed absolute address: a non-empty scheme, then `://`, then a
/// non-empty remainder, where the scheme is delimited by the first colon.
pub open spec fn is_valid_url(b: Seq<u8>) -> bool {
    let i = find_byte(b, 58u8, 0);
    1 <= i && i + 3 < b.len() && b[i + 1] == 47u8 && b[i + 2] == 47u8
}

/// Checks that `url` is a well-formed absolute address.
pub fn validate_url(url: &str) -> (r: Result<(), Error>)
    ensures
        r is Ok <==> is_valid_url(url.spec_bytes()),
        r is Err ==> r == Err::<(), Error>(Error::InvalidUrl),
{
    let b = url.as_bytes();
    let n = b.len();
    let mut i: usize = 0;
    while i < n && b[i] != 58u8
        invariant
            0 <= i <= n,
            n == b@.len(),
            forall|j: int| 0 <= j < i ==> b@[j] != 58u8,
        decreases n - i,
    {
        i += 1;
    }
    proof {
        lemma_find_byte_after_miss(b@, 58u8, 0, i as int);
    }
    if 1 <= i && n > 3 && i < n - 3 && b[i + 1] == 47u8 && b[i + 2] == 47u8 {
        Ok(())
    } else {
        Err(Error::InvalidUrl)
    }
}

/// If no byte before `upto` equals `c`, the first occurrence search from 0
/// agrees with the search from `upto`; in particular, if `upto` hits `c` or
/// the end, it is the answer.
proof fn lemma_find_byte_after_miss(b: Seq<u8>, c: u8, from: int, upto: int)
    requires
        0 <= from <= upto <= b.len(),
        forall|j: int| from <= j < upto ==> b[j] != c,
    ensures
        find_byte(b, c, from) == find_byte(b, c, upto),
    decreases upto - from,
{
    if from < upto {
        lemma_find_byte_after_miss(b, c, from + 1, upto);
    }
}

} // verus!
