//! Protocol-level data cached from the network: the parameters a node
//! reports, and the client-wide network information derived from them.

use vstd::prelude::*;

verus! {

/// The rent structure of the ledger: the cost of storage in virtual bytes.
#[derive(Clone, Copy, Debug, PartialEq, Eq, Structural)]
pub struct RentStructure {
    pub v_byte_cost: u32,
    pub v_byte_factor_key: u8,
    pub v_byte_factor_data: u8,
}

impl RentStructure {
    /// A rent structure with the given cost and weight factors.
    pub fn new(v_byte_cost: u32, v_byte_factor_key: u8, v_byte_factor_data: u8) -> (r:
        RentStructure)
        ensures
            r == (RentStructure { v_byte_cost, v_byte_factor_key, v_byte_factor_data }),
    {
        RentStructure { v_byte_cost, v_byte_factor_key, v_byte_factor_data }
    }
}

/// The protocol parameters one network reports: the values the client caches
/// from the winning network of a sync cycle.
#[derive(Debug, PartialEq, Eq)]
pub struct ProtocolParameters {
    pub protocol_version: u8,
    pub network_name: String,
    pub bech32_hrp: String,
    pub min_pow_score: u32,
    pub below_max_depth: u8,
    pub rent_structure: RentStructure,
    pub token_supply: u64,
}

impl Clone for ProtocolParameters {
    /// An equal copy of the parameters.
    fn clone(&self) -> (r: Self)
        ensures
            r == *self,
    {
        ProtocolParameters {
            protocol_version: self.protocol_version,
            network_name: self.network_name.clone(),
            bech32_hrp: self.bech32_hrp.clone(),
            min_pow_score: self.min_pow_score,
            below_max_depth: self.below_max_depth,
            rent_structure: self.rent_structure,
            token_supply: self.token_supply,
        }
    }
}

impl Default for ProtocolParameters {
    /// Placeholder parameters, overwritten by the first sync cycle.
    fn default() -> (r: Self)
        ensures
            r.protocol_version == 2,
            r.network_name@ == Seq::<char>::empty(),
            r.bech32_hrp@ == Seq::<char>::empty(),
            r.min_pow_score == 0,
            r.below_max_depth == 20,
            r.rent_structure == (RentStructure {
                v_byte_cost: 0,
                v_byte_factor_key: 0,
                v_byte_factor_data: 0,
            }),
            r.token_supply == 0,
    {
        ProtocolParameters {
            protocol_version: 2,
            network_name: String::new(),
            bech32_hrp: String::new(),
            min_pow_score: 0,
            below_max_depth: 20,
            rent_structure: RentStructure { v_byte_cost: 0, v_byte_factor_key: 0, v_byte_factor_data: 0 },
            token_supply: 0,
        }
    }
}

/// Network and proof-of-work related information, shared across the client.
#[derive(Debug, PartialEq, Eq)]
pub struct NetworkInfo {
    /// Protocol parameters of the network the client follows.
    pub protocol_parameters: ProtocolParameters,
    /// Whether proof of work is done locally.
    pub local_pow: bool,
    /// Fall back to local proof of work if the node cannot do it remotely.
    pub fallback_to_local_pow: bool,
    /// Tips request interval during proof of work, in seconds.
    pub tips_interval: u64,
}

/// Tips request interval during proof of work, in seconds.
pub const DEFAULT_TIPS_INTERVAL: u64 = 15;

impl Clone for NetworkInfo {
    /// An equal copy of the network information.
    fn clone(&self) -> (r: Self)
        ensures
            r == *self,
    {
        NetworkInfo {
            protocol_parameters: self.protocol_parameters.clone(),
            local_pow: self.local_pow,
            fallback_to_local_pow: self.fallback_to_local_pow,
            tips_interval: self.tips_interval,
        }
    }
}

impl Default for NetworkInfo {
    /// Local proof of work, with fallback, at the default tips interval.
    fn default() -> (r: Self)
        ensures
            r.local_pow,
            r.fallback_to_local_pow,
            r.tips_interval == DEFAULT_TIPS_INTERVAL,
    {
        NetworkInfo {
            protocol_parameters: Default::default(),
            local_pow: true,
            fallback_to_local_pow: true,
            tips_interval: DEFAULT_TIPS_INTERVAL,
        }
    }
}

} // verus!
