//! Error taxonomy of the node manager.

use vstd::prelude::*;

verus! {

/// Everything that can go wrong while selecting nodes, dispatching requests
/// or refreshing the healthy-node pool.
#[derive(Debug, PartialEq, Eq)]
pub enum Error {
    /// No enabled candidate node remained after filtering.
    SyncedNodePoolEmpty,
    /// Neither a primary node nor any configured node exists for a simple
    /// node pick.
    HealthyNodePoolEmpty,
    /// Too few candidates were available to even attempt a quorum read.
    QuorumPoolSizeError { available_nodes: usize, minimum_threshold: usize },
    /// A quorum read was attempted but the best value missed the threshold.
    QuorumThresholdError { quorum_size: usize, minimum_threshold: usize },
    /// A node answered with the well-known "object not found" status.
    NotFound,
    /// A generic node-reported failure, carrying the response or error text.
    NodeError(String),
    /// A shared-state lock was corrupted by a prior panic.
    PoisonError,
    /// A node's response body could not be decoded.
    JsonDecodeError,
    /// An address could not be parsed as a well-formed absolute URL.
    InvalidUrl,
}

impl Clone for Error {
    /// An equal copy of the error.
    fn clone(&self) -> (r: Self)
        ensures
            r == *self,
    {
        match self {
            Error::SyncedNodePoolEmpty => Error::SyncedNodePoolEmpty,
            Error::HealthyNodePoolEmpty => Error::HealthyNodePoolEmpty,
            Error::QuorumPoolSizeError { available_nodes, minimum_threshold } => {
                Error::QuorumPoolSizeError {
                    available_nodes: *available_nodes,
                    minimum_threshold: *minimum_threshold,
                }
            },
            Error::QuorumThresholdError { quorum_size, minimum_threshold } => {
                Error::QuorumThresholdError {
                    quorum_size: *quorum_size,
                    minimum_threshold: *minimum_threshold,
                }
            },
            Error::NotFound => Error::NotFound,
            Error::NodeError(s) => Error::NodeError(s.clone()),
            Error::PoisonError => Error::PoisonError,
            Error::JsonDecodeError => Error::JsonDecodeError,
            Error::InvalidUrl => Error::InvalidUrl,
        }
    }
}

} // verus!
