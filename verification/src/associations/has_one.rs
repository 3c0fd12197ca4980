//! A resource with exactly one related resource of one kind.
use vstd::prelude::*;
use crate::factory::{Factory, FactoryContext};
use crate::associations::belongs_to::{BelongingTo, BelongsTo};
use crate::associations::ResolveDependency;
use crate::associations::with_identifier::{identifies, WithIdentifier};

verus! {

/// The related resource, created by a default factory `F`.
#[derive(Debug, Default)]
pub struct HasOneDefault<F>(F);

impl<F> HasOneDefault<F> {
    /// The factory of the related resource.
    pub closed spec fn factory(self) -> F {
        self.0
    }
}

impl<CTX: FactoryContext, F: Factory<CTX>> Factory<CTX> for HasOneDefault<F> {
    type Output = F::Output;

    /// Creates exactly as the wrapped factory.
    open spec fn creates(self, before: CTX, after: CTX, out: Result<Self::Output, CTX::Error>) -> bool {
        self.factory().creates(before, after, out)
    }

    fn create(self, ctx: &mut CTX) -> (out: Result<Self::Output, CTX::Error>) {
        self.0.create(ctx)
    }
}

impl<R, F: BelongingTo<R>> BelongingTo<R> for HasOneDefault<F> {
    /// The wrapped factory is attached to the resource.
    open spec fn attaches(self, resource: R, out: Self) -> bool {
        self.factory().attaches(resource, out.factory())
    }

    fn belonging_to(self, resource: &R) -> (out: Self) {
        HasOneDefault(self.0.belonging_to(resource))
    }
}

/// The related resource already exists; this is its identifier.
#[derive(Debug)]
pub struct HasOneCreated<ID>(ID);

impl<ID> HasOneCreated<ID> {
    /// The identifier of the existing resource.
    pub closed spec fn id(self) -> ID {
        self.0
    }

    pub fn new(id: ID) -> (out: Self)
        ensures
            out.id() == id,
    {
        HasOneCreated(id)
    }
}

impl<CTX: FactoryContext, ID> Factory<CTX> for HasOneCreated<ID> {
    type Output = ID;

    /// Hands back the identifier and leaves the context as it was.
    open spec fn creates(self, before: CTX, after: CTX, out: Result<Self::Output, CTX::Error>) -> bool {
        out == Ok::<ID, CTX::Error>(self.id()) && after == before
    }

    fn create(self, _ctx: &mut CTX) -> (out: Result<Self::Output, CTX::Error>) {
        Ok(self.0)
    }
}

impl<R, ID> BelongingTo<R> for HasOneCreated<ID> {
    /// An existing resource is left as it is.
    open spec fn attaches(self, resource: R, out: Self) -> bool {
        out == self
    }

    fn belonging_to(self, _resource: &R) -> (out: Self) {
        self
    }
}

/// The related resource is created by this factory, and known by its identifier.
#[derive(Debug)]
pub struct HasOneToCreate<F>(F);

impl<F> HasOneToCreate<F> {
    /// The factory of the related resource.
    pub closed spec fn factory(self) -> F {
        self.0
    }

    pub fn new(factory: F) -> (out: Self)
        ensures
            out.factory() == factory,
    {
        HasOneToCreate(factory)
    }
}

impl<CTX: FactoryContext, F: Factory<CTX>> Factory<CTX> for HasOneToCreate<F> where
    F::Output: WithIdentifier,
 {
    type Output = <F::Output as WithIdentifier>::ID;

    /// The factory creates its resource, whose identifier is handed back, or fails.
    open spec fn creates(self, before: CTX, after: CTX, out: Result<Self::Output, CTX::Error>) -> bool {
        match out {
            Ok(id) => exists|resource: F::Output|
                #[trigger] self.factory().creates(before, after, Ok(resource)) && identifies(resource, id),
            Err(e) => self.factory().creates(before, after, Err(e)),
        }
    }

    fn create(self, cx: &mut CTX) -> (out: Result<Self::Output, CTX::Error>) {
        match self.0.create(cx) {
            Ok(resource) => {
                let id = resource.extract_id();
                assert(self.factory().creates(*old(cx), *cx, Ok(resource)));
                Ok(id)
            },
            Err(e) => Err(e),
        }
    }
}

impl<R, F: BelongingTo<R>> BelongingTo<R> for HasOneToCreate<F> {
    /// The wrapped factory is attached to the resource.
    open spec fn attaches(self, resource: R, out: Self) -> bool {
        self.factory().attaches(resource, out.factory())
    }

    fn belonging_to(self, resource: &R) -> (out: Self) {
        HasOneToCreate(self.0.belonging_to(resource))
    }
}

} // verus!

verus! {

/// An existing related resource is never created again: its factory hands
/// back the identifier it was given and leaves the context as it was, and
/// that is the only outcome.
pub proof fn lemma_has_one_created_keeps_context<CTX: FactoryContext, ID>(
    created: HasOneCreated<ID>,
    before: CTX,
    after: CTX,
    out: Result<ID, CTX::Error>,
)
    ensures
        created.creates(before, after, out) <==> (out == Ok::<ID, CTX::Error>(created.id()) && after == before),
{
}

/// A related resource to create is created exactly as a dependency on a
/// resource to create is resolved: the factory creates the resource and the
/// resource's identifier is handed back, or the factory's error is.
pub proof fn lemma_has_one_to_create_resolves_like_belongs_to<CTX: FactoryContext, F: Factory<CTX>, ID>(
    to_create: HasOneToCreate<F>,
    before: CTX,
    after: CTX,
    out: Result<ID, CTX::Error>,
) where F::Output: WithIdentifier<ID = ID>
    ensures
        to_create.creates(before, after, out) <==> BelongsTo::<F, ID>::Create(to_create.factory()).resolves(
            before,
            after,
            out,
        ),
{
    let f = to_create.factory();
    let dependency = BelongsTo::<F, ID>::Create(f);
    if let Ok(id) = out {
        if to_create.creates(before, after, out) {
            let resource = choose|resource: F::Output| #[trigger] f.creates(before, after, Ok(resource)) && identifies(resource, id);
            assert(f.creates(before, after, Ok(resource)) && identifies(resource, id));
            assert(dependency matches BelongsTo::Create(g) && g == f);
            assert(dependency.resolves(before, after, out));
        }
        if dependency.resolves(before, after, out) {
            let resource = choose|resource: F::Output| #[trigger] f.creates(before, after, Ok(resource)) && identifies(resource, id);
            assert(f.creates(before, after, Ok(resource)) && identifies(resource, id));
            assert(to_create.creates(before, after, out));
        }
    }
}

} // verus!
