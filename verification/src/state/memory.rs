//! A store in memory, for tests and small helpers.

use crate::error::{MetadataError, MetadataResult};
use crate::state::types::{RouteEpoch, StateStore};
use vstd::prelude::*;

verus! {

/// Holds a route epoch and nothing else.
#[derive(Debug)]
pub struct MemoryStateStore {
    pub route_epoch: RouteEpoch,
}

impl MemoryStateStore {
    /// A store at the first route epoch.
    pub fn new() -> (store: Self)
        ensures
            store.route_epoch == (RouteEpoch { epoch: 1 }),
    {
        MemoryStateStore { route_epoch: RouteEpoch::new(1) }
    }
}

impl Default for MemoryStateStore {
    fn default() -> (store: Self)
        ensures
            store.route_epoch == (RouteEpoch { epoch: 1 }),
    {
        Self::new()
    }
}

impl StateStore for MemoryStateStore {
    fn get_route_epoch(&self) -> (epoch: MetadataResult<RouteEpoch>)
        ensures
            epoch == Ok::<RouteEpoch, MetadataError>(self.route_epoch),
    {
        Ok(self.route_epoch)
    }
}

} // verus!
