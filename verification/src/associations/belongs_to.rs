//! A resource that belongs to another one: it needs the other's identifier.
use vstd::prelude::*;
use crate::factory::{Factory, FactoryContext};
use crate::tuple_hack::UnitTuple;
use crate::associations::with_identifier::{identifies, WithIdentifier};
use crate::associations::ResolveDependency;

verus! {

/// The resource that a field depends on: either a factory that will create
/// it, or the identifier of one that already exists.
#[derive(Debug)]
pub enum BelongsTo<F, ID> {
    Create(F),
    Created(ID),
}

impl<F: Default, ID> Default for BelongsTo<F, ID> {
    /// By default the resource is created by a default factory.
    fn default() -> (r: Self)
        ensures
            r matches BelongsTo::Create(factory) && call_ensures(F::default, (), factory),
    {
        BelongsTo::Create(F::default())
    }
}

impl<CTX: FactoryContext, F: Factory<CTX>, ID> ResolveDependency<CTX> for BelongsTo<F, ID> where
    F::Output: WithIdentifier<ID = ID>,
 {
    type Output = ID;

    /// An existing identifier is handed back without touching the context; a
    /// factory creates its resource, whose identifier is handed back, or fails.
    open spec fn resolves(self, before: CTX, after: CTX, out: Result<ID, CTX::Error>) -> bool {
        match self {
            BelongsTo::Create(factory) => match out {
                Ok(id) => exists|resource: F::Output|
                    #[trigger] factory.creates(before, after, Ok(resource)) && identifies(resource, id),
                Err(e) => factory.creates(before, after, Err(e)),
            },
            BelongsTo::Created(id) => out == Ok::<ID, CTX::Error>(id) && after == before,
        }
    }

    fn resolve_dependency(self, cx: &mut CTX) -> (out: Result<ID, CTX::Error>) {
        match self {
            BelongsTo::Create(factory) => match factory.create(cx) {
                Ok(resource) => {
                    let id = resource.extract_id();
                    Ok(id)
                },
                Err(e) => Err(e),
            },
            BelongsTo::Created(id) => Ok(id),
        }
    }
}

/// A factory that can be told the identifier of the resource it belongs to,
/// through the link numbered `N`.
pub trait BelongingToLink<const N: u64> {
    type ID;

    /// What linking `factory` to the resource identified by `id` gives.
    /// Says nothing unless an implementation states more.
    open spec fn links(factory: Self, id: Self::ID, out: Self) -> bool
        where Self: Sized
    {
        true
    }

    /// Sets the identifier of the resource that `factory` belongs to.
    fn setter(factory: Self, id: Self::ID) -> (out: Self)
        where Self: Sized
        ensures
            Self::links(factory, id, out),
    ;
}

/// A factory to be attached, through link `N`, to the resource it belongs to.
#[derive(Debug)]
pub struct FactoryBelongingTo<const N: u64, F> {
    pub factory: F,
}

/// Linking `factory` through link `N` to an identifier that `resource` gives
/// may produce `out`.
pub open spec fn linked_to<const N: u64, R: WithIdentifier, F: BelongingToLink<N, ID = R::ID>>(
    factory: F,
    resource: R,
    out: F,
) -> bool {
    exists|id: R::ID| #[trigger] identifies(resource, id) && F::links(factory, id, out)
}

impl<const N: u64, R: WithIdentifier, F: BelongingToLink<N, ID = R::ID>> BelongingTo<R> for FactoryBelongingTo<N, F> {
    /// The factory is linked to the resource's identifier.
    open spec fn attaches(self, resource: R, out: Self) -> bool {
        linked_to::<N, R, F>(self.factory, resource, out.factory)
    }

    fn belonging_to(self, resource: &R) -> (out: Self) {
        let FactoryBelongingTo { factory } = self;
        let id = resource.extract_id();
        assert(identifies(*resource, id));
        let linked = F::setter(factory, id);
        FactoryBelongingTo { factory: linked }
    }
}

impl<const N: u64, CTX: FactoryContext, F: Factory<CTX>> Factory<CTX> for FactoryBelongingTo<N, F> {
    type Output = F::Output;

    /// Creates exactly as the wrapped factory.
    open spec fn creates(self, before: CTX, after: CTX, out: Result<Self::Output, CTX::Error>) -> bool {
        self.factory.creates(before, after, out)
    }

    fn create(self, ctx: &mut CTX) -> (out: Result<Self::Output, CTX::Error>) {
        self.factory.create(ctx)
    }
}

/// Something that can be attached to a resource `R` it belongs to.
pub trait BelongingTo<R> {
    /// What attaching `self` to `resource` gives. Says nothing unless an
    /// implementation states more.
    open spec fn attaches(self, resource: R, out: Self) -> bool
        where Self: Sized
    {
        true
    }

    fn belonging_to(self, resource: &R) -> (out: Self)
        where Self: Sized
        ensures
            self.attaches(*resource, out),
    ;
}

impl<RES, T: BelongingTo<RES>> BelongingTo<RES> for UnitTuple<T> {
    /// The element is attached to the resource.
    open spec fn attaches(self, resource: RES, out: Self) -> bool {
        self.item().attaches(resource, out.item())
    }

    fn belonging_to(self, resource: &RES) -> (out: Self) {
        proof {
            self.lemma_item_is_held();
        }
        let UnitTuple(inner) = self;
        let out = UnitTuple(inner.belonging_to(resource));
        proof {
            out.lemma_item_is_held();
        }
        out
    }
}

impl<RES, A: BelongingTo<RES>, B: BelongingTo<RES>> BelongingTo<RES> for (A, B) {
    /// Every element is attached to the resource.
    open spec fn attaches(self, resource: RES, out: Self) -> bool {
        self.0.attaches(resource, out.0)
            && self.1.attaches(resource, out.1)
    }

    fn belonging_to(self, resource: &RES) -> (out: Self) {
        let (t0, t1) = self;
        (t0.belonging_to(resource), t1.belonging_to(resource))
    }
}

impl<RES, A: BelongingTo<RES>, B: BelongingTo<RES>, C: BelongingTo<RES>> BelongingTo<RES> for (A, B, C) {
    /// Every element is attached to the resource.
    open spec fn attaches(self, resource: RES, out: Self) -> bool {
        self.0.attaches(resource, out.0)
            && self.1.attaches(resource, out.1)
            && self.2.attaches(resource, out.2)
    }

    fn belonging_to(self, resource: &RES) -> (out: Self) {
        let (t0, t1, t2) = self;
        (t0.belonging_to(resource), t1.belonging_to(resource), t2.belonging_to(resource))
    }
}

impl<RES, A: BelongingTo<RES>, B: BelongingTo<RES>, C: BelongingTo<RES>, D: BelongingTo<RES>> BelongingTo<RES> for (A, B, C, D) {
    /// Every element is attached to the resource.
    open spec fn attaches(self, resource: RES, out: Self) -> bool {
        self.0.attaches(resource, out.0)
            && self.1.attaches(resource, out.1)
            && self.2.attaches(resource, out.2)
            && self.3.attaches(resource, out.3)
    }

    fn belonging_to(self, resource: &RES) -> (out: Self) {
        let (t0, t1, t2, t3) = self;
        (t0.belonging_to(resource), t1.belonging_to(resource), t2.belonging_to(resource), t3.belonging_to(resource))
    }
}

impl<RES, A: BelongingTo<RES>, B: BelongingTo<RES>, C: BelongingTo<RES>, D: BelongingTo<RES>, E: BelongingTo<RES>> BelongingTo<RES> for (A, B, C, D, E) {
    /// Every element is attached to the resource.
    open spec fn attaches(self, resource: RES, out: Self) -> bool {
        self.0.attaches(resource, out.0)
            && self.1.attaches(resource, out.1)
            && self.2.attaches(resource, out.2)
            && self.3.attaches(resource, out.3)
            && self.4.attaches(resource, out.4)
    }

    fn belonging_to(self, resource: &RES) -> (out: Self) {
        let (t0, t1, t2, t3, t4) = self;
        (t0.belonging_to(resource), t1.belonging_to(resource), t2.belonging_to(resource), t3.belonging_to(resource), t4.belonging_to(resource))
    }
}

impl<RES, A: BelongingTo<RES>, B: BelongingTo<RES>, C: BelongingTo<RES>, D: BelongingTo<RES>, E: BelongingTo<RES>, F: BelongingTo<RES>> BelongingTo<RES> for (A, B, C, D, E, F) {
    /// Every element is attached to the resource.
    open spec fn attaches(self, resource: RES, out: Self) -> bool {
        self.0.attaches(resource, out.0)
            && self.1.attaches(resource, out.1)
            && self.2.attaches(resource, out.2)
            && self.3.attaches(resource, out.3)
            && self.4.attaches(resource, out.4)
            && self.5.attaches(resource, out.5)
    }

    fn belonging_to(self, resource: &RES) -> (out: Self) {
        let (t0, t1, t2, t3, t4, t5) = self;
        (t0.belonging_to(resource), t1.belonging_to(resource), t2.belonging_to(resource), t3.belonging_to(resource), t4.belonging_to(resource), t5.belonging_to(resource))
    }
}

impl<RES, A: BelongingTo<RES>, B: BelongingTo<RES>, C: BelongingTo<RES>, D: BelongingTo<RES>, E: BelongingTo<RES>, F: BelongingTo<RES>, G: BelongingTo<RES>> BelongingTo<RES> for (A, B, C, D, E, F, G) {
    /// Every element is attached to the resource.
    open spec fn attaches(self, resource: RES, out: Self) -> bool {
        self.0.attaches(resource, out.0)
            && self.1.attaches(resource, out.1)
            && self.2.attaches(resource, out.2)
            && self.3.attaches(resource, out.3)
            && self.4.attaches(resource, out.4)
            && self.5.attaches(resource, out.5)
            && self.6.attaches(resource, out.6)
    }

    fn belonging_to(self, resource: &RES) -> (out: Self) {
        let (t0, t1, t2, t3, t4, t5, t6) = self;
        (t0.belonging_to(resource), t1.belonging_to(resource), t2.belonging_to(resource), t3.belonging_to(resource), t4.belonging_to(resource), t5.belonging_to(resource), t6.belonging_to(resource))
    }
}

impl<RES, A: BelongingTo<RES>, B: BelongingTo<RES>, C: BelongingTo<RES>, D: BelongingTo<RES>, E: BelongingTo<RES>, F: BelongingTo<RES>, G: BelongingTo<RES>, H: BelongingTo<RES>> BelongingTo<RES> for (A, B, C, D, E, F, G, H) {
    /// Every element is attached to the resource.
    open spec fn attaches(self, resource: RES, out: Self) -> bool {
        self.0.attaches(resource, out.0)
            && self.1.attaches(resource, out.1)
            && self.2.attaches(resource, out.2)
            && self.3.attaches(resource, out.3)
            && self.4.attaches(resource, out.4)
            && self.5.attaches(resource, out.5)
            && self.6.attaches(resource, out.6)
            && self.7.attaches(resource, out.7)
    }

    fn belonging_to(self, resource: &RES) -> (out: Self) {
        let (t0, t1, t2, t3, t4, t5, t6, t7) = self;
        (t0.belonging_to(resource), t1.belonging_to(resource), t2.belonging_to(resource), t3.belonging_to(resource), t4.belonging_to(resource), t5.belonging_to(resource), t6.belonging_to(resource), t7.belonging_to(resource))
    }
}

impl<RES, A: BelongingTo<RES>, B: BelongingTo<RES>, C: BelongingTo<RES>, D: BelongingTo<RES>, E: BelongingTo<RES>, F: BelongingTo<RES>, G: BelongingTo<RES>, H: BelongingTo<RES>, I: BelongingTo<RES>> BelongingTo<RES> for (A, B, C, D, E, F, G, H, I) {
    /// Every element is attached to the resource.
    open spec fn attaches(self, resource: RES, out: Self) -> bool {
        self.0.attaches(resource, out.0)
            && self.1.attaches(resource, out.1)
            && self.2.attaches(resource, out.2)
            && self.3.attaches(resource, out.3)
            && self.4.attaches(resource, out.4)
            && self.5.attaches(resource, out.5)
            && self.6.attaches(resource, out.6)
            && self.7.attaches(resource, out.7)
            && self.8.attaches(resource, out.8)
    }

    fn belonging_to(self, resource: &RES) -> (out: Self) {
        let (t0, t1, t2, t3, t4, t5, t6, t7, t8) = self;
        (t0.belonging_to(resource), t1.belonging_to(resource), t2.belonging_to(resource), t3.belonging_to(resource), t4.belonging_to(resource), t5.belonging_to(resource), t6.belonging_to(resource), t7.belonging_to(resource), t8.belonging_to(resource))
    }
}

impl<RES, A: BelongingTo<RES>, B: BelongingTo<RES>, C: BelongingTo<RES>, D: BelongingTo<RES>, E: BelongingTo<RES>, F: BelongingTo<RES>, G: BelongingTo<RES>, H: BelongingTo<RES>, I: BelongingTo<RES>, J: BelongingTo<RES>> BelongingTo<RES> for (A, B, C, D, E, F, G, H, I, J) {
    /// Every element is attached to the resource.
    open spec fn attaches(self, resource: RES, out: Self) -> bool {
        self.0.attaches(resource, out.0)
            && self.1.attaches(resource, out.1)
            && self.2.attaches(resource, out.2)
            && self.3.attaches(resource, out.3)
            && self.4.attaches(resource, out.4)
            && self.5.attaches(resource, out.5)
            && self.6.attaches(resource, out.6)
            && self.7.attaches(resource, out.7)
            && self.8.attaches(resource, out.8)
            && self.9.attaches(resource, out.9)
    }

    fn belonging_to(self, resource: &RES) -> (out: Self) {
        let (t0, t1, t2, t3, t4, t5, t6, t7, t8, t9) = self;
        (t0.belonging_to(resource), t1.belonging_to(resource), t2.belonging_to(resource), t3.belonging_to(resource), t4.belonging_to(resource), t5.belonging_to(resource), t6.belonging_to(resource), t7.belonging_to(resource), t8.belonging_to(resource), t9.belonging_to(resource))
    }
}

impl<RES, A: BelongingTo<RES>, B: BelongingTo<RES>, C: BelongingTo<RES>, D: BelongingTo<RES>, E: BelongingTo<RES>, F: BelongingTo<RES>, G: BelongingTo<RES>, H: BelongingTo<RES>, I: BelongingTo<RES>, J: BelongingTo<RES>, K: BelongingTo<RES>> BelongingTo<RES> for (A, B, C, D, E, F, G, H, I, J, K) {
    /// Every element is attached to the resource.
    open spec fn attaches(self, resource: RES, out: Self) -> bool {
        self.0.attaches(resource, out.0)
            && self.1.attaches(resource, out.1)
            && self.2.attaches(resource, out.2)
            && self.3.attaches(resource, out.3)
            && self.4.attaches(resource, out.4)
            && self.5.attaches(resource, out.5)
            && self.6.attaches(resource, out.6)
            && self.7.attaches(resource, out.7)
            && self.8.attaches(resource, out.8)
            && self.9.attaches(resource, out.9)
            && self.10.attaches(resource, out.10)
    }

    fn belonging_to(self, resource: &RES) -> (out: Self) {
        let (t0, t1, t2, t3, t4, t5, t6, t7, t8, t9, t10) = self;
        (t0.belonging_to(resource), t1.belonging_to(resource), t2.belonging_to(resource), t3.belonging_to(resource), t4.belonging_to(resource), t5.belonging_to(resource), t6.belonging_to(resource), t7.belonging_to(resource), t8.belonging_to(resource), t9.belonging_to(resource), t10.belonging_to(resource))
    }
}

impl<RES, A: BelongingTo<RES>, B: BelongingTo<RES>, C: BelongingTo<RES>, D: BelongingTo<RES>, E: BelongingTo<RES>, F: BelongingTo<RES>, G: BelongingTo<RES>, H: BelongingTo<RES>, I: BelongingTo<RES>, J: BelongingTo<RES>, K: BelongingTo<RES>, L: BelongingTo<RES>> BelongingTo<RES> for (A, B, C, D, E, F, G, H, I, J, K, L) {
    /// Every element is attached to the resource.
    open spec fn attaches(self, resource: RES, out: Self) -> bool {
        self.0.attaches(resource, out.0)
            && self.1.attaches(resource, out.1)
            && self.2.attaches(resource, out.2)
            && self.3.attaches(resource, out.3)
            && self.4.attaches(resource, out.4)
            && self.5.attaches(resource, out.5)
            && self.6.attaches(resource, out.6)
            && self.7.attaches(resource, out.7)
            && self.8.attaches(resource, out.8)
            && self.9.attaches(resource, out.9)
            && self.10.attaches(resource, out.10)
            && self.11.attaches(resource, out.11)
    }

    fn belonging_to(self, resource: &RES) -> (out: Self) {
        let (t0, t1, t2, t3, t4, t5, t6, t7, t8, t9, t10, t11) = self;
        (t0.belonging_to(resource), t1.belonging_to(resource), t2.belonging_to(resource), t3.belonging_to(resource), t4.belonging_to(resource), t5.belonging_to(resource), t6.belonging_to(resource), t7.belonging_to(resource), t8.belonging_to(resource), t9.belonging_to(resource), t10.belonging_to(resource), t11.belonging_to(resource))
    }
}


} // verus!

verus! {

/// A dependency on an existing resource resolves to that resource's
/// identifier and leaves the context as it was; that is the only outcome.
pub proof fn lemma_created_dependency_keeps_context<CTX: FactoryContext, F: Factory<CTX>, ID>(
    id: ID,
    before: CTX,
    after: CTX,
    out: Result<ID, CTX::Error>,
) where F::Output: WithIdentifier<ID = ID>
    ensures
        BelongsTo::<F, ID>::Created(id).resolves(before, after, out) <==> (out == Ok::<ID, CTX::Error>(id) && after
            == before),
{
    let dependency = BelongsTo::<F, ID>::Created(id);
    assert(dependency matches BelongsTo::Created(given) && given == id);
}

} // verus!
