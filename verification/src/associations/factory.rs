//! A factory together with the related resources created after it.
use vstd::prelude::*;
use crate::factory::{Factory, FactoryContext};
use crate::associations::belongs_to::BelongingTo;

verus! {

/// A factory and the related resources that belong to what it creates.
pub struct FactoryWithResources<F, R> {
    pub factory: F,
    pub resources: R,
}

impl<CTX: FactoryContext, F: Factory<CTX>, R: Factory<CTX> + BelongingTo<F::Output>> Factory<CTX> for FactoryWithResources<F, R> {
    type Output = (F::Output, R::Output);

    /// The factory creates its resource first; the related resources are then
    /// attached to that resource and created from the context it left.
    /// Nothing related is created when the resource itself fails.
    open spec fn creates(self, before: CTX, after: CTX, out: Result<Self::Output, CTX::Error>) -> bool {
        match out {
            Ok(t) => exists|mid: CTX, linked: R|
                #![trigger self.factory.creates(before, mid, Ok(t.0)), self.resources.attaches(t.0, linked)]
                self.factory.creates(before, mid, Ok(t.0)) && self.resources.attaches(t.0, linked)
                    && linked.creates(mid, after, Ok(t.1)),
            Err(e) => self.factory.creates(before, after, Err(e)) || exists|mid: CTX, resource: F::Output, linked: R|
                #![trigger self.factory.creates(before, mid, Ok(resource)), self.resources.attaches(resource, linked)]
                self.factory.creates(before, mid, Ok(resource)) && self.resources.attaches(resource, linked)
                    && linked.creates(mid, after, Err(e)),
        }
    }

    fn create(self, ctx: &mut CTX) -> (out: Result<Self::Output, CTX::Error>) {
        let ghost before = *ctx;
        let FactoryWithResources { factory, resources } = self;
        match factory.create(ctx) {
            Err(e) => Err(e),
            Ok(resource) => {
                let ghost mid = *ctx;
                let linked = resources.belonging_to(&resource);
                match linked.create(ctx) {
                    Ok(related) => {
                        let r = Ok((resource, related));
                        assert(self.factory.creates(before, mid, Ok(r->Ok_0.0)));
                        assert(self.resources.attaches(r->Ok_0.0, linked));
                        r
                    },
                    Err(e) => {
                        assert(self.factory.creates(before, mid, Ok(resource)));
                        Err(e)
                    },
                }
            },
        }
    }
}

} // verus!

verus! {

/// When the resource itself cannot be created from `before`, no related
/// resource is: every outcome is an error of the resource's factory.
pub proof fn lemma_related_resources_need_their_resource<CTX: FactoryContext, F: Factory<CTX>, R: Factory<CTX> + BelongingTo<F::Output>>(
    with_resources: FactoryWithResources<F, R>,
    before: CTX,
    after: CTX,
    out: Result<(F::Output, R::Output), CTX::Error>,
)
    requires
        forall|mid: CTX, o: F::Output| !#[trigger] with_resources.factory.creates(before, mid, Ok(o)),
        with_resources.creates(before, after, out),
    ensures
        out matches Err(e) && with_resources.factory.creates(before, after, Err(e)),
{
    match out {
        Ok(t) => {
            let (mid, linked) = choose|mid: CTX, linked: R|
                #![trigger with_resources.factory.creates(before, mid, Ok(t.0)), with_resources.resources.attaches(t.0, linked)]
                with_resources.factory.creates(before, mid, Ok(t.0)) && with_resources.resources.attaches(t.0, linked)
                    && linked.creates(mid, after, Ok(t.1));
            assert(with_resources.factory.creates(before, mid, Ok(t.0)));
        },
        Err(e) => {},
    }
}

} // verus!
