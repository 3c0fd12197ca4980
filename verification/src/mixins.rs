//! Mixins: groups of attributes shared by several factories.
use vstd::prelude::*;

verus! {

/// A factory that holds a mixin of type `M`, which `with_mixin` updates.
pub trait WithMixin<M> {
    fn with_mixin<F: FnOnce(M) -> M>(self, f: F) -> Self
        where Self: Sized;
}

} // verus!
