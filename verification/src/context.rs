//! The entry point of tests: a context in which factories and bundles create resources.
use vstd::prelude::*;
use crate::bundle::FactoryBundle;
use crate::factory::{Factory, FactoryContext};

verus! {

/// Owns the context in which every resource is created.
#[derive(Debug, Default)]
pub struct Fabriko<CTX>(CTX);

impl<CTX> Fabriko<CTX> {
    /// The context resources are created in.
    pub closed spec fn context(self) -> CTX {
        self.0
    }
}

impl<CTX: FactoryContext> Fabriko<CTX> {
    pub fn into_inner(self) -> (ctx: CTX)
        ensures
            ctx == self.context(),
    {
        self.0
    }

    pub fn new(ctx: CTX) -> (fabriko: Self)
        ensures
            fabriko.context() == ctx,
    {
        Fabriko(ctx)
    }

    /// Creates the bundle `B`, whose creation cannot fail from this context.
    pub fn bundle<B: FactoryBundle<CTX>>(&mut self) -> (bundle: B)
        requires
            forall|after: CTX, out: Result<B, CTX::Error>|
                B::bundle_creates(old(self).context(), after, out) ==> out is Ok,
        ensures
            B::bundle_creates(old(self).context(), final(self).context(), Ok(bundle)),
    {
        let ghost start = self.context();
        match B::create_bundle(&mut self.0) {
            Ok(bundle) => bundle,
            Err(_) => vstd::pervasive::unreached(),
        }
    }

    /// Creates the bundle `B`, or hands back the error of the context.
    pub fn try_bundle<B: FactoryBundle<CTX>>(&mut self) -> (out: Result<B, CTX::Error>)
        ensures
            B::bundle_creates(old(self).context(), final(self).context(), out),
    {
        B::create_bundle(&mut self.0)
    }

    /// Creates the resource of the factory that `define_factory` makes from a
    /// default one, when that creation cannot fail from this context.
    pub fn factory<F: Default, FF: Factory<CTX>, CB: FnOnce(F) -> FF>(&mut self, define_factory: CB) -> (resource: FF::Output)
        requires
            forall|d: F| call_requires(define_factory, (d,)),
            forall|after: CTX, out: Result<FF::Output, CTX::Error>|
                #[trigger] factory_outcome::<CTX, F, FF, CB>(define_factory, old(self).context(), after, out) ==> out is Ok,
        ensures
            factory_outcome::<CTX, F, FF, CB>(define_factory, old(self).context(), final(self).context(), Ok(resource)),
    {
        let start = F::default();
        let ghost given = start;
        let factory = define_factory(start);
        let ghost made = factory;
        let ghost before = self.context();
        let created = factory.create(&mut self.0);
        assert(factory_outcome::<CTX, F, FF, CB>(define_factory, before, self.context(), created)) by {
            assert(call_ensures(define_factory, (given,), made));
        }
        match created {
            Ok(resource) => resource,
            Err(_) => vstd::pervasive::unreached(),
        }
    }

    /// Creates the resource of the factory that `define_factory` makes from a
    /// default one, or hands back the error of the context.
    pub fn try_factory<F: Default, FF: Factory<CTX>, CB: FnOnce(F) -> FF>(&mut self, define_factory: CB) -> (out: Result<FF::Output, CTX::Error>)
        requires
            forall|d: F| call_requires(define_factory, (d,)),
        ensures
            factory_outcome::<CTX, F, FF, CB>(define_factory, old(self).context(), final(self).context(), out),
    {
        let start = F::default();
        let ghost given = start;
        let factory = define_factory(start);
        let ghost made = factory;
        let ghost before = self.context();
        let out = factory.create(&mut self.0);
        assert(call_ensures(define_factory, (given,), made));
        out
    }
}

/// What creating through `define_factory` may do: `F::default()` may give
/// `d`, `define_factory` may turn `d` into the factory `ff`, and `ff` may
/// create `out`, taking the context from `before` to `after`.
pub open spec fn factory_outcome<CTX: FactoryContext, F: Default, FF: Factory<CTX>, CB: FnOnce(F) -> FF>(
    define_factory: CB,
    before: CTX,
    after: CTX,
    out: Result<FF::Output, CTX::Error>,
) -> bool {
    exists|d: F, ff: FF|
        #![trigger call_ensures(define_factory, (d,), ff)]
        call_ensures(F::default, (), d) && call_ensures(define_factory, (d,), ff) && ff.creates(before, after, out)
}

/// Where creating through `define_factory` cannot fail from `before`,
/// `factory` and `try_factory` agree: every outcome they allow is the same
/// relation, and `try_factory` never gives an error there, so `factory`
/// returns `r` exactly where `try_factory` may return `Ok(r)`.
pub proof fn lemma_factory_agrees_with_try_factory<CTX: FactoryContext, F: Default, FF: Factory<CTX>, CB: FnOnce(F) -> FF>(
    define_factory: CB,
    before: CTX,
    after: CTX,
    out: Result<FF::Output, CTX::Error>,
)
    requires
        forall|a: CTX, o: Result<FF::Output, CTX::Error>|
            #[trigger] factory_outcome::<CTX, F, FF, CB>(define_factory, before, a, o) ==> o is Ok,
        factory_outcome::<CTX, F, FF, CB>(define_factory, before, after, out),
    ensures
        out is Ok,
{
}

/// Where creating through `define_factory` from `before` has one outcome at
/// most, `factory` and `try_factory` give the same: if `factory` may return
/// `r` leaving `after_factory`, and `try_factory` may return `out` leaving
/// `after_try`, then `out` is `Ok(r)` and both leave the same context. So
/// `try_factory` fails there only where `factory`'s precondition does not hold.
pub proof fn lemma_factory_returns_what_try_factory_returns<
    CTX: FactoryContext,
    F: Default,
    FF: Factory<CTX>,
    CB: FnOnce(F) -> FF,
>(
    define_factory: CB,
    before: CTX,
    r: FF::Output,
    after_factory: CTX,
    out: Result<FF::Output, CTX::Error>,
    after_try: CTX,
)
    requires
        forall|a1: CTX, o1: Result<FF::Output, CTX::Error>, a2: CTX, o2: Result<FF::Output, CTX::Error>|
            #[trigger] factory_outcome::<CTX, F, FF, CB>(define_factory, before, a1, o1)
                && #[trigger] factory_outcome::<CTX, F, FF, CB>(define_factory, before, a2, o2) ==> a1 == a2 && o1
                == o2,
        factory_outcome::<CTX, F, FF, CB>(define_factory, before, after_factory, Ok(r)),
        factory_outcome::<CTX, F, FF, CB>(define_factory, before, after_try, out),
    ensures
        out == Ok::<FF::Output, CTX::Error>(r),
        after_try == after_factory,
{
}

} // verus!
