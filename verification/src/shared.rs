//! Shared, concurrently accessed state: the health tracker's node set and
//! the cached network information. Both are multi-reader/single-writer cells
//! guarded by a lock; a poisoned lock surfaces as `PoisonError`, never as a
//! second panic. Because another thread may write between two operations,
//! nothing relates two snapshots: callers state what holds of any snapshot.

use vstd::prelude::*;
use crate::error::Error;
use crate::node::Node;
use crate::protocol::NetworkInfo;

verus! {

/// The health tracker's shared node set. The sync process is its only
/// writer; dispatch calls read it on every request when syncing is enabled.
#[verifier::external_body]
pub struct SharedNodeSet {
    inner: std::sync::Arc<std::sync::RwLock<Vec<Node>>>,
}

impl SharedNodeSet {
    /// Relies on std's `Arc::new` and `RwLock::new`: a fresh, empty set.
    #[verifier::external_body]
    pub fn new() -> (s: SharedNodeSet) {
        SharedNodeSet {
            inner: std::sync::Arc::new(std::sync::RwLock::new(Vec::new())),
        }
    }

    /// Relies on std's `RwLock::read`: a complete snapshot of the current
    /// set — readers never observe a partial update — or `PoisonError` when
    /// a prior panic poisoned the lock.
    #[verifier::external_body]
    pub fn snapshot(&self) -> (r: Result<Vec<Node>, Error>)
        ensures
            match r {
                Ok(_) => true,
                Err(e) => e == Error::PoisonError,
            },
    {
        match self.inner.read() {
            Ok(guard) => Ok(guard.clone()),
            Err(_) => Err(Error::PoisonError),
        }
    }

    /// Relies on std's `RwLock::write`: atomically replaces the whole set
    /// (a full overwrite, never a merge), or reports `PoisonError`.
    #[verifier::external_body]
    pub fn replace(&self, nodes: Vec<Node>) -> (r: Result<(), Error>)
        ensures
            match r {
                Ok(_) => true,
                Err(e) => e == Error::PoisonError,
            },
    {
        match self.inner.write() {
            Ok(mut guard) => {
                *guard = nodes;
                Ok(())
            },
            Err(_) => Err(Error::PoisonError),
        }
    }

    /// Relies on std's `Arc::clone`: a second handle to the same shared set.
    #[verifier::external_body]
    pub fn handle(&self) -> (r: SharedNodeSet) {
        SharedNodeSet { inner: std::sync::Arc::clone(&self.inner) }
    }
}

/// The cached network information, shared between the sync process (its
/// writer) and every caller that needs protocol parameters.
#[verifier::external_body]
pub struct SharedNetworkInfo {
    inner: std::sync::Arc<std::sync::RwLock<NetworkInfo>>,
}

impl SharedNetworkInfo {
    /// Relies on std's `Arc::new` and `RwLock::new`: wraps the configured
    /// network information for sharing.
    #[verifier::external_body]
    pub fn new(info: NetworkInfo) -> (s: SharedNetworkInfo) {
        SharedNetworkInfo {
            inner: std::sync::Arc::new(std::sync::RwLock::new(info)),
        }
    }

    /// Relies on std's `RwLock::read`: an internally consistent snapshot —
    /// never a half-written record — or `PoisonError` when the lock was
    /// poisoned by a prior panic.
    #[verifier::external_body]
    pub fn read(&self) -> (r: Result<NetworkInfo, Error>)
        ensures
            match r {
                Ok(_) => true,
                Err(e) => e == Error::PoisonError,
            },
    {
        match self.inner.read() {
            Ok(guard) => Ok(guard.clone()),
            Err(_) => Err(Error::PoisonError),
        }
    }

    /// Relies on std's `RwLock::write`: atomically replaces the record, so a
    /// reader sees either the old or the new value, or reports `PoisonError`.
    #[verifier::external_body]
    pub fn replace(&self, info: NetworkInfo) -> (r: Result<(), Error>)
        ensures
            match r {
                Ok(_) => true,
                Err(e) => e == Error::PoisonError,
            },
    {
        match self.inner.write() {
            Ok(mut guard) => {
                *guard = info;
                Ok(())
            },
            Err(_) => Err(Error::PoisonError),
        }
    }

    /// Relies on std's `Arc::clone`: a second handle to the same record.
    #[verifier::external_body]
    pub fn handle(&self) -> (r: SharedNetworkInfo) {
        SharedNetworkInfo { inner: std::sync::Arc::clone(&self.inner) }
    }
}

} // verus!
