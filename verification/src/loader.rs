//! The loader capability: how to turn a descriptor into a resource.
//!
//! The cache never constructs resources itself; the embedding application
//! supplies a loader per resource kind, and the cache is polymorphic over
//! this capability.

use vstd::prelude::*;

verus! {

/// Constructs a resource of type `R` from a descriptor of type `Args`, or
/// fails with a descriptive message.
///
/// An implementor chooses `load_post` to describe what its `load` promises
/// of an outcome; `load` may perform I/O, so `load_post` need not pin a
/// single result. The cache's own contract then speaks of `load_post` on the
/// miss path, where the loader is consulted.
pub trait ResourceLoader<R>: Sized {
    /// The descriptor shape this loader accepts.
    type Args;

    /// What this loader promises of the outcome of `load` on a descriptor.
    spec fn load_post(&self, data: Self::Args, r: Result<R, String>) -> bool;

    /// Produces a freshly constructed resource from the descriptor, or an
    /// error describing why construction failed.
    fn load(&self, data: &Self::Args) -> (r: Result<R, String>)
        ensures
            self.load_post(*data, r),
    ;
}

} // verus!
