//! The transaction-level context against which an output's creation,
//! transition and destruction are judged.

use vstd::prelude::*;
use crate::output::parts::{Address, ChainId, TokenId};
use crate::output::Output;

verus! {

/// Why a state transition was rejected.
#[derive(Clone, Copy, Debug, PartialEq, Eq, Structural)]
pub enum StateTransitionError {
    /// A created foundry's serial number does not continue its alias's count.
    InconsistentFoundrySerialNumber,
    /// A foundry was created without its controlling alias in the
    /// transaction.
    MissingAliasForFoundry,
    /// Native tokens inconsistent with a foundry's creation.
    InconsistentNativeTokensFoundryCreation,
    /// An immutable field changed.
    MutatedImmutableField,
    /// Minted or melted counters decreased.
    NonMonotonicallyIncreasingNativeTokens,
    /// Native tokens inconsistent with a mint.
    InconsistentNativeTokensMint,
    /// Native tokens inconsistent with a plain transition.
    InconsistentNativeTokensTransition,
    /// Native tokens inconsistent with a melt or burn.
    InconsistentNativeTokensMeltBurn,
    /// Native tokens inconsistent with a foundry's destruction.
    InconsistentNativeTokensFoundryDestruction,
    /// A chain was created with a non-null identifier.
    NonZeroCreatedId,
    /// The issuer's address was not unlocked by this transaction.
    IssuerNotUnlocked,
    /// A field changed that this kind of transition has no right to change.
    MutatedFieldWithoutRights,
    /// Created foundries are not serialized in order.
    UnsortedCreatedFoundries,
    /// The alias's foundry counter does not match the created foundries.
    InconsistentCreatedFoundriesCount,
    /// The state index moved by something other than zero or one.
    UnsupportedStateIndexOperation { current_state: u32, next_state: u32 },
}

/// The context one transaction provides: its chains, native token sums,
/// unlocked addresses and produced outputs.
pub struct ValidationContext {
    /// The chain-identified inputs.
    pub input_chains: Vec<(ChainId, Output)>,
    /// The chain-identified outputs.
    pub output_chains: Vec<(ChainId, Output)>,
    /// The summed native tokens on the input side.
    pub input_native_tokens: Vec<(TokenId, u128)>,
    /// The summed native tokens on the output side.
    pub output_native_tokens: Vec<(TokenId, u128)>,
    /// The addresses this transaction unlocked.
    pub unlocked_addresses: Vec<Address>,
    /// The outputs the transaction essence produces, in order.
    pub essence_outputs: Vec<Output>,
}

/// The first output filed under `k`, or nothing.
pub open spec fn spec_chain_lookup(m: Seq<(ChainId, Output)>, k: ChainId) -> Option<Output>
    decreases m.len(),
{
    if m.len() == 0 {
        None
    } else if m[0].0 == k {
        Some(m[0].1)
    } else {
        spec_chain_lookup(m.drop_first(), k)
    }
}

/// Whether some output is filed under `k`.
pub open spec fn spec_has_chain(m: Seq<(ChainId, Output)>, k: ChainId) -> bool {
    spec_chain_lookup(m, k) is Some
}

/// The first output filed under `k`, or nothing.
pub fn chain_lookup<'a>(m: &'a Vec<(ChainId, Output)>, k: ChainId) -> (r: Option<&'a Output>)
    ensures
        match spec_chain_lookup(m@, k) {
            Some(o) => r is Some && *r->0 == o,
            None => r is None,
        },
{
    let n = m.len();
    let mut i: usize = 0;
    proof {
        assert(m@.skip(0) =~= m@);
    }
    while i < n
        invariant
            0 <= i <= n,
            n == m@.len(),
            spec_chain_lookup(m@.skip(i as int), k) == spec_chain_lookup(m@, k),
        decreases n - i,
    {
        proof {
            assert(m@.skip(i as int)[0] == m@[i as int]);
            assert(m@.skip(i as int).drop_first() =~= m@.skip(i as int + 1));
        }
        if m[i].0 == k {
            return Some(&m[i].1);
        }
        i += 1;
    }
    proof {
        assert(m@.skip(n as int) =~= Seq::<(ChainId, Output)>::empty());
    }
    None
}

/// The summed amount filed under `k`, or zero.
pub open spec fn spec_token_amount(m: Seq<(TokenId, u128)>, k: TokenId) -> u128
    decreases m.len(),
{
    if m.len() == 0 {
        0
    } else if m[0].0 == k {
        m[0].1
    } else {
        spec_token_amount(m.drop_first(), k)
    }
}

/// Whether an amount is filed under `k` at all.
pub open spec fn spec_has_token(m: Seq<(TokenId, u128)>, k: TokenId) -> bool
    decreases m.len(),
{
    if m.len() == 0 {
        false
    } else if m[0].0 == k {
        true
    } else {
        spec_has_token(m.drop_first(), k)
    }
}

/// The summed amount filed under `k`, or zero when absent.
pub fn token_amount(m: &Vec<(TokenId, u128)>, k: TokenId) -> (r: u128)
    ensures
        r == spec_token_amount(m@, k),
{
    let n = m.len();
    let mut i: usize = 0;
    proof {
        assert(m@.skip(0) =~= m@);
    }
    while i < n
        invariant
            0 <= i <= n,
            n == m@.len(),
            spec_token_amount(m@.skip(i as int), k) == spec_token_amount(m@, k),
        decreases n - i,
    {
        proof {
            assert(m@.skip(i as int)[0] == m@[i as int]);
            assert(m@.skip(i as int).drop_first() =~= m@.skip(i as int + 1));
        }
        if m[i].0 == k {
            return m[i].1;
        }
        i += 1;
    }
    proof {
        assert(m@.skip(n as int) =~= Seq::<(TokenId, u128)>::empty());
    }
    0
}

/// Whether an amount is filed under `k` at all.
pub fn has_token(m: &Vec<(TokenId, u128)>, k: TokenId) -> (r: bool)
    ensures
        r == spec_has_token(m@, k),
{
    let n = m.len();
    let mut i: usize = 0;
    proof {
        assert(m@.skip(0) =~= m@);
    }
    while i < n
        invariant
            0 <= i <= n,
            n == m@.len(),
            spec_has_token(m@.skip(i as int), k) == spec_has_token(m@, k),
        decreases n - i,
    {
        proof {
            assert(m@.skip(i as int)[0] == m@[i as int]);
            assert(m@.skip(i as int).drop_first() =~= m@.skip(i as int + 1));
        }
        if m[i].0 == k {
            return true;
        }
        i += 1;
    }
    proof {
        assert(m@.skip(n as int) =~= Seq::<(TokenId, u128)>::empty());
    }
    false
}

/// Whether the transaction unlocked `a`.
pub fn contains_address(v: &Vec<Address>, a: Address) -> (r: bool)
    ensures
        r == v@.contains(a),
{
    let n = v.len();
    let mut i: usize = 0;
    while i < n
        invariant
            0 <= i <= n,
            n == v@.len(),
            forall|j: int| 0 <= j < i ==> v@[j] != a,
        decreases n - i,
    {
        if v[i] == a {
            proof {
                assert(v@.contains(a));
            }
            return true;
        }
        i += 1;
    }
    proof {
        if v@.contains(a) {
            let w = choose|w: int| 0 <= w < v@.len() && v@[w] == a;
            assert(false);
        }
    }
    false
}

} // verus!
