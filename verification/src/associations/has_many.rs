//! A resource with many related resources of one kind.
use vstd::prelude::*;
use crate::factory::{Factory, FactoryContext};
use crate::associations::belongs_to::{linked_to, BelongingTo, BelongingToLink, FactoryBelongingTo};
use crate::associations::with_identifier::WithIdentifier;

verus! {

/// Related resources to create, each by its own factory, attached through link `N`.
#[derive(Default)]
pub struct HasMany<const N: u64, F>(Vec<FactoryBelongingTo<N, F>>);

impl<const N: u64, F> HasMany<N, F> {
    /// The factories of the related resources, in the order they were added.
    pub closed spec fn factories(self) -> Seq<FactoryBelongingTo<N, F>> {
        self.0@
    }

    /// The factories themselves, without their link.
    pub open spec fn inner_factories(self) -> Seq<F> {
        self.factories().map_values(|f: FactoryBelongingTo<N, F>| f.factory)
    }
}

impl<const N: u64, F: Default> HasMany<N, F> {
    /// Adds one more related resource, made by `func` from a default factory.
    pub fn with<const LINK: u64, FF: FnOnce(F) -> F>(self, func: FF) -> (out: Self)
        requires
            forall|d: F| call_requires(func, (d,)),
        ensures
            exists|d: F, made: F|
                #![trigger call_ensures(func, (d,), made)]
                call_ensures(F::default, (), d) && call_ensures(func, (d,), made) && out.factories()
                    == self.factories().push(
                    FactoryBelongingTo { factory: made },
                ),
    {
        let HasMany(mut factories) = self;
        let start = F::default();
        let ghost given = start;
        let factory = func(start);
        let ghost made = factory;
        factories.push(FactoryBelongingTo { factory });
        let out = HasMany(factories);
        assert(call_ensures(func, (given,), made));
        out
    }
}

/// The first `k` factories each created their resource, the first one from
/// `trace[0]` and each one from the context that the one before it left:
/// factory `i` took the context from `trace[i]` to `trace[i + 1]` and made `made[i]`.
pub open spec fn created_in_order<CTX: FactoryContext, F: Factory<CTX>>(
    factories: Seq<F>,
    k: int,
    trace: Seq<CTX>,
    made: Seq<F::Output>,
) -> bool {
    &&& 0 <= k <= factories.len()
    &&& trace.len() == k + 1
    &&& made.len() == k
    &&& forall|i: int| 0 <= i < k ==> #[trigger] factories[i].creates(trace[i], trace[i + 1], Ok(made[i]))
}

/// Every one of `factories` created its resource, in order, each from the
/// context the one before it left (see `created_in_order`).
pub open spec fn all_created<CTX: FactoryContext, F: Factory<CTX>>(
    factories: Seq<F>,
    trace: Seq<CTX>,
    made: Seq<F::Output>,
) -> bool {
    created_in_order(factories, factories.len() as int, trace, made)
}

/// Creating `factories` one after the other from `before` may succeed for
/// all of them, ending in `after` with their resources `created` in order.
pub open spec fn creates_all<CTX: FactoryContext, F: Factory<CTX>>(
    factories: Seq<F>,
    before: CTX,
    after: CTX,
    created: Seq<F::Output>,
) -> bool {
    exists|trace: Seq<CTX>|
        #[trigger] all_created(factories, trace, created) && trace[0] == before && trace.last() == after
}

/// Creating `factories` one after the other from `before` may fail with `e`,
/// ending in `after`: the ones before some factory succeeded, that factory
/// failed with `e`, and none after it was created.
pub open spec fn fails_partway<CTX: FactoryContext, F: Factory<CTX>>(
    factories: Seq<F>,
    before: CTX,
    after: CTX,
    e: CTX::Error,
) -> bool {
    exists|k: int, trace: Seq<CTX>, made: Seq<F::Output>|
        #[trigger] created_in_order(factories, k, trace, made) && k < factories.len() && trace[0] == before
            && factories[k].creates(trace.last(), after, Err(e))
}

impl<const N: u64, CTX: FactoryContext, F: Factory<CTX>> Factory<CTX> for HasMany<N, F> {
    type Output = Vec<F::Output>;

    /// The related resources are created in the order they were added, stopping at the first error.
    open spec fn creates(self, before: CTX, after: CTX, out: Result<Self::Output, CTX::Error>) -> bool {
        match out {
            Ok(created) => creates_all(self.inner_factories(), before, after, created@),
            Err(e) => fails_partway(self.inner_factories(), before, after, e),
        }
    }

    fn create(self, ctx: &mut CTX) -> (out: Result<Self::Output, CTX::Error>) {
        let ghost before = *ctx;
        let ghost all = self.0@;
        let ghost inner = self.inner_factories();
        let HasMany(mut rest) = self;
        let mut created: Vec<F::Output> = Vec::new();
        let ghost mut done: int = 0;
        let ghost mut trace: Seq<CTX> = seq![before];
        while rest.len() > 0
            invariant
                0 <= done <= all.len(),
                rest@ == all.skip(done),
                inner == self.inner_factories(),
                before == *old(ctx),
                inner == all.map_values(|f: FactoryBelongingTo<N, F>| f.factory),
                created_in_order(inner, done, trace, created@),
                trace[0] == before,
                trace.last() == *ctx,
            decreases rest.len(),
        {
            let next = rest.remove(0);
            assert(next == all[done]);
            assert(inner[done] == next.factory);
            match next.create(ctx) {
                Ok(resource) => {
                    let ghost previous = created@;
                    created.push(resource);
                    proof {
                        let old_trace = trace;
                        trace = trace.push(*ctx);
                        assert forall|i: int| 0 <= i < done + 1 implies #[trigger] inner[i].creates(
                            trace[i],
                            trace[i + 1],
                            Ok(created@[i]),
                        ) by {
                            if i < done {
                                assert(inner[i].creates(old_trace[i], old_trace[i + 1], Ok(previous[i])));
                            }
                        }
                        done = done + 1;
                    }
                    assert(rest@ =~= all.skip(done));
                },
                Err(e) => {
                    assert(created_in_order(inner, done, trace, created@));
                    assert(fails_partway(inner, before, *ctx, e));
                    return Err(e);
                },
            }
        }
        assert(all_created(inner, trace, created@));
        assert(creates_all(inner, before, *ctx, created@));
        Ok(created)
    }
}

impl<const N: u64, R: WithIdentifier, F: BelongingToLink<N, ID = R::ID>> BelongingTo<R> for HasMany<N, F> {
    /// Every related resource's factory is attached to the resource, in order.
    open spec fn attaches(self, resource: R, out: Self) -> bool {
        &&& out.factories().len() == self.factories().len()
        &&& forall|i: int|
            0 <= i < self.factories().len() ==> #[trigger] self.factories()[i].attaches(resource, out.factories()[i])
    }

    fn belonging_to(self, resource: &R) -> (out: Self) {
        let ghost all = self.0@;
        let HasMany(mut rest) = self;
        let mut attached: Vec<FactoryBelongingTo<N, F>> = Vec::new();
        let ghost mut done: int = 0;
        while rest.len() > 0
            invariant
                0 <= done <= all.len(),
                rest@ == all.skip(done),
                attached@.len() == done,
                forall|i: int| 0 <= i < done ==> #[trigger] all[i].attaches(*resource, attached@[i]),
            decreases rest.len(),
        {
            let next = rest.remove(0);
            assert(next == all[done]);
            let linked = next.belonging_to(resource);
            attached.push(linked);
            proof {
                done = done + 1;
            }
            assert(rest@ =~= all.skip(done));
        }
        HasMany(attached)
    }
}

} // verus!

verus! {

/// With no related resource to create, nothing is created: the outcome is an
/// empty list and the context is left as it was, and that is the only outcome.
pub proof fn lemma_has_many_without_factories<const N: u64, CTX: FactoryContext, F: Factory<CTX>>(
    many: HasMany<N, F>,
    before: CTX,
    after: CTX,
    out: Result<Vec<F::Output>, CTX::Error>,
)
    requires
        many.factories().len() == 0,
    ensures
        many.creates(before, after, out) <==> (out is Ok && out->Ok_0@.len() == 0 && after == before),
{
    let inner = many.inner_factories();
    assert(inner.len() == 0);
    if many.creates(before, after, out) {
        match out {
            Ok(created) => {
                let trace = choose|trace: Seq<CTX>|
                    #[trigger] all_created(inner, trace, created@) && trace[0] == before && trace.last() == after;
            },
            Err(e) => {
                assert(fails_partway(inner, before, after, e));
            },
        }
    }
    if out is Ok && out->Ok_0@.len() == 0 && after == before {
        let trace = seq![before];
        assert(all_created(inner, trace, out->Ok_0@));
    }
}

/// `factory` can create `resource` from some context.
pub open spec fn can_create<CTX: FactoryContext, F: Factory<CTX>>(factory: F, resource: F::Output) -> bool {
    exists|from: CTX, to: CTX| #[trigger] factory.creates(from, to, Ok(resource))
}

/// Each related resource is created by its own factory, in the order the
/// factories were added and each from the context the one before left: a
/// success yields exactly one resource per factory, the `i`-th made by the
/// `i`-th factory.
pub proof fn lemma_has_many_one_resource_per_factory<const N: u64, CTX: FactoryContext, F: Factory<CTX>>(
    many: HasMany<N, F>,
    before: CTX,
    after: CTX,
    created: Vec<F::Output>,
)
    requires
        many.creates(before, after, Ok(created)),
    ensures
        creates_all(many.inner_factories(), before, after, created@),
        created@.len() == many.factories().len(),
        forall|i: int|
            0 <= i < created@.len() ==> #[trigger] can_create::<CTX, F>(many.factories()[i].factory, created@[i]),
{
    let inner = many.inner_factories();
    let trace = choose|trace: Seq<CTX>|
        #[trigger] all_created(inner, trace, created@) && trace[0] == before && trace.last() == after;
    assert forall|i: int| 0 <= i < created@.len() implies #[trigger] can_create::<CTX, F>(
        many.factories()[i].factory,
        created@[i],
    ) by {
        assert(inner[i].creates(trace[i], trace[i + 1], Ok(created@[i])));
    }
}

/// A failure is the error of one of the factories: the factories before it
/// each created their resource, one after the other from `before`, that one
/// failed from the context they left, and none after it ran.
pub proof fn lemma_has_many_error_comes_from_a_factory<const N: u64, CTX: FactoryContext, F: Factory<CTX>>(
    many: HasMany<N, F>,
    before: CTX,
    after: CTX,
    e: CTX::Error,
)
    requires
        many.creates(before, after, Err(e)),
    ensures
        exists|k: int, from: CTX|
            0 <= k < many.factories().len() && #[trigger] many.factories()[k].factory.creates(from, after, Err(e)),
        fails_partway(many.inner_factories(), before, after, e),
{
    let inner = many.inner_factories();
    let (k, trace, made) = choose|k: int, trace: Seq<CTX>, made: Seq<F::Output>|
        #[trigger] created_in_order(inner, k, trace, made) && k < inner.len() && trace[0] == before
            && inner[k].creates(trace.last(), after, Err(e));
    assert(many.factories()[k].factory.creates(trace.last(), after, Err(e)));
}

/// Attaching the related resources to a resource links each of their
/// factories, in order, to an identifier of that resource; none is added or lost.
pub proof fn lemma_has_many_links_every_factory<const N: u64, R: WithIdentifier, F: BelongingToLink<N, ID = R::ID>>(
    many: HasMany<N, F>,
    resource: R,
    out: HasMany<N, F>,
)
    requires
        many.attaches(resource, out),
    ensures
        out.factories().len() == many.factories().len(),
        forall|i: int|
            0 <= i < many.factories().len() ==> #[trigger] linked_to::<N, R, F>(
                many.factories()[i].factory,
                resource,
                out.factories()[i].factory,
            ),
{
    assert forall|i: int| 0 <= i < many.factories().len() implies #[trigger] linked_to::<N, R, F>(
        many.factories()[i].factory,
        resource,
        out.factories()[i].factory,
    ) by {
        assert(many.0@[i].attaches(resource, out.0@[i]));
    }
}

} // verus!
