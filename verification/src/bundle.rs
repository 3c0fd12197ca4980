//! Bundles: several resources created together to set up a test.
use vstd::prelude::*;
use crate::factory::FactoryContext;

verus! {

/// A set of resources created together inside a context.
pub trait FactoryBundle<CTX: FactoryContext>: Sized {
    /// What creating the bundle may do: move the context from `before` to
    /// `after` and produce `out`. Says nothing unless an implementation states more.
    open spec fn bundle_creates(before: CTX, after: CTX, out: Result<Self, CTX::Error>) -> bool {
        true
    }

    fn create_bundle(cx: &mut CTX) -> (out: Result<Self, CTX::Error>)
        ensures
            Self::bundle_creates(*old(cx), *final(cx), out),
    ;
}

} // verus!
