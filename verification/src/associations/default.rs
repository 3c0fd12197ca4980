//! The association a factory has by default with a related resource.
use vstd::prelude::*;
use crate::factory::{Factory, FactoryContext};
use crate::associations::belongs_to::BelongingTo;

verus! {

/// A related resource created by the factory `F` unless told otherwise.
#[derive(Debug, Default)]
pub struct DefaultAssociation<F>(F);

impl<F> DefaultAssociation<F> {
    /// The factory of the related resource.
    pub closed spec fn factory(self) -> F {
        self.0
    }
}

impl<CTX: FactoryContext, F: Factory<CTX>> Factory<CTX> for DefaultAssociation<F> {
    type Output = F::Output;

    /// Creates exactly as the wrapped factory.
    open spec fn creates(self, before: CTX, after: CTX, out: Result<Self::Output, CTX::Error>) -> bool {
        self.factory().creates(before, after, out)
    }

    fn create(self, ctx: &mut CTX) -> (out: Result<Self::Output, CTX::Error>) {
        self.0.create(ctx)
    }
}

impl<R, F: BelongingTo<R>> BelongingTo<R> for DefaultAssociation<F> {
    /// The wrapped factory is attached to the resource.
    open spec fn attaches(self, resource: R, out: Self) -> bool {
        self.factory().attaches(resource, out.factory())
    }

    fn belonging_to(self, resource: &R) -> (out: Self) {
        DefaultAssociation(self.0.belonging_to(resource))
    }
}

} // verus!
