//! A resource that may or may not belong to another one.
use vstd::prelude::*;
use crate::factory::{Factory, FactoryContext};
use crate::associations::with_identifier::{identifies, WithIdentifier};
use crate::associations::ResolveDependency;
use crate::associations::belongs_to::BelongsTo;

verus! {

/// An optional dependency: none, a factory that will create it, or the
/// identifier of one that already exists.
#[derive(Debug)]
pub enum MayBelongTo<F, ID> {
    DoesNotBelongTo,
    Create(F),
    Created(ID),
}

impl<F, ID> Default for MayBelongTo<F, ID> {
    /// By default there is no dependency.
    fn default() -> (r: Self)
        ensures
            r is DoesNotBelongTo,
    {
        MayBelongTo::DoesNotBelongTo
    }
}

impl<CTX: FactoryContext, F: Factory<CTX>, ID> ResolveDependency<CTX> for MayBelongTo<F, ID> where
    F::Output: WithIdentifier<ID = ID>,
 {
    type Output = Option<ID>;

    /// No dependency gives `None`, an existing identifier gives it back, both
    /// without touching the context; a factory creates its resource, whose
    /// identifier is handed back, or fails.
    open spec fn resolves(self, before: CTX, after: CTX, out: Result<Option<ID>, CTX::Error>) -> bool {
        match self {
            MayBelongTo::DoesNotBelongTo => out == Ok::<Option<ID>, CTX::Error>(None) && after == before,
            MayBelongTo::Create(factory) => match out {
                Ok(Some(id)) => exists|resource: F::Output|
                    #[trigger] factory.creates(before, after, Ok(resource)) && identifies(resource, id),
                Ok(None) => false,
                Err(e) => factory.creates(before, after, Err(e)),
            },
            MayBelongTo::Created(id) => out == Ok::<Option<ID>, CTX::Error>(Some(id)) && after == before,
        }
    }

    fn resolve_dependency(self, cx: &mut CTX) -> (out: Result<Option<ID>, CTX::Error>) {
        match self {
            MayBelongTo::DoesNotBelongTo => Ok(None),
            MayBelongTo::Create(factory) => match factory.create(cx) {
                Ok(resource) => {
                    let id = resource.extract_id();
                    Ok(Some(id))
                },
                Err(e) => Err(e),
            },
            MayBelongTo::Created(id) => Ok(Some(id)),
        }
    }
}

} // verus!

verus! {

/// The optional dependency that holds what `dependency` holds.
pub open spec fn optional_dependency<F, ID>(dependency: BelongsTo<F, ID>) -> MayBelongTo<F, ID> {
    match dependency {
        BelongsTo::Create(factory) => MayBelongTo::Create(factory),
        BelongsTo::Created(id) => MayBelongTo::Created(id),
    }
}

/// Without a dependency nothing is created: `None` comes back and the
/// context is left as it was; that is the only outcome.
pub proof fn lemma_no_dependency_resolves_to_none<CTX: FactoryContext, F: Factory<CTX>, ID>(
    before: CTX,
    after: CTX,
    out: Result<Option<ID>, CTX::Error>,
) where F::Output: WithIdentifier<ID = ID>
    ensures
        MayBelongTo::<F, ID>::DoesNotBelongTo.resolves(before, after, out) <==> (out == Ok::<
            Option<ID>,
            CTX::Error,
        >(None) && after == before),
{
    let dependency = MayBelongTo::<F, ID>::DoesNotBelongTo;
    assert(dependency is DoesNotBelongTo);
}

/// An optional dependency that is given resolves exactly as the same
/// dependency does when it is required, its identifier wrapped in `Some`;
/// it never resolves to `None`.
pub proof fn lemma_given_dependency_resolves_like_belongs_to<CTX: FactoryContext, F: Factory<CTX>, ID>(
    dependency: BelongsTo<F, ID>,
    before: CTX,
    after: CTX,
    id: ID,
    e: CTX::Error,
) where F::Output: WithIdentifier<ID = ID>
    ensures
        optional_dependency(dependency).resolves(before, after, Ok(Some(id))) <==> dependency.resolves(
            before,
            after,
            Ok(id),
        ),
        optional_dependency(dependency).resolves(before, after, Err(e)) <==> dependency.resolves(
            before,
            after,
            Err(e),
        ),
        !optional_dependency(dependency).resolves(before, after, Ok(None)),
{
    match dependency {
        BelongsTo::Create(factory) => {
            assert(optional_dependency(dependency) matches MayBelongTo::Create(g) && g == factory);
            assert(dependency matches BelongsTo::Create(g) && g == factory);
        },
        BelongsTo::Created(given) => {
            assert(optional_dependency(dependency) matches MayBelongTo::Created(g) && g == given);
            assert(dependency matches BelongsTo::Created(g) && g == given);
        },
    }
}

} // verus!
