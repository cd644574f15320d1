//! The call context: the per-invocation pairing of a concrete storage and
//! querier strategy with the boundary's dispatch into them.
//!
//! Construction binds the concrete types once; every boundary call issued
//! through the context then reaches exactly the implementations of that
//! pair, with no per-call type check. The raw type-erased pointer that the
//! enclave actually holds, and its unchecked recovery, live in the embedding
//! layer; inside the library the binding is carried by the context's type
//! parameters themselves, so a context built for one pair of types cannot
//! dispatch into another's implementations.

use vstd::prelude::*;
use crate::storage::{Querier, Storage};

verus! {

/// One in-flight sequence of boundary calls for one contract execution,
/// owning the embedder-supplied storage and querier for its duration.
pub struct FullContext<S: Storage, Q: Querier> {
    pub storage: S,
    pub querier: Q,
}

impl<S: Storage, Q: Querier> FullContext<S, Q> {
    /// Bind the concrete storage and querier implementations for one
    /// contract invocation.
    pub fn new(storage: S, querier: Q) -> (r: Self)
        ensures
            r.storage == storage,
            r.querier == querier,
    {
        FullContext { storage, querier }
    }

    /// Tear the context down when the invocation ends, handing the storage
    /// back to the embedder.
    pub fn into_storage(self) -> (r: S)
        ensures
            r == self.storage,
    {
        self.storage
    }
}

} // verus!
