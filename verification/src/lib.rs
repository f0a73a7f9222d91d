//! Client-side access layer for a distributed ledger network.
//!
//! The heart of the crate is the node manager: it keeps a pool of candidate
//! nodes, selects which nodes to query for a request, fans requests out with
//! an optional quorum-voting protocol, and models the background health-sync
//! process that keeps the pool's notion of "healthy" current. The crate also
//! provides the ledger's alias and foundry output types together with their
//! builders and state-transition rules.

pub mod candidates;
pub mod client;
pub mod dispatch;
pub mod error;
pub mod manager;
pub mod node;
pub mod output;
pub mod protocol;
pub mod quorum;
pub mod shared;
pub mod syncing;
