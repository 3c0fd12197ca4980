//! Associations between resources: a resource may belong to another one
//! (it needs that one's identifier to be created) or have related resources
//! (they are created after it and attached to it).
use vstd::prelude::*;
use crate::factory::FactoryContext;
use crate::associations::factory::FactoryWithResources;

pub mod belongs_to;
pub mod default;
pub mod factory;
pub mod has_many;
pub mod has_one;
pub mod may_belong_to;
pub mod with_identifier;

verus! {

/// A dependency that must be turned into a value (most often an identifier)
/// before a resource can be created.
pub trait ResolveDependency<CTX: FactoryContext> {
    type Output;

    /// What resolving `self` may do: move the context from `before` to
    /// `after` and produce `out`. Says nothing unless an implementation states more.
    open spec fn resolves(self, before: CTX, after: CTX, out: Result<Self::Output, CTX::Error>) -> bool
        where Self: Sized
    {
        true
    }

    fn resolve_dependency(self, cx: &mut CTX) -> (out: Result<Self::Output, CTX::Error>)
        where Self: Sized
        ensures
            self.resolves(*old(cx), *final(cx), out),
    ;
}

/// A factory whose resource can have related resources, declared in an
/// associations value that starts from `DefaultAssociations`.
pub trait WithRelatedResources: Sized {
    type DefaultAssociations: Default;

    /// Pairs this factory with the related resources that `func` declares,
    /// starting from the default associations `Default::default()` gives.
    fn with_related_resources<ASSOCIATIONS, F: FnOnce(Self::DefaultAssociations) -> ASSOCIATIONS>(
        self,
        func: F,
    ) -> (out: FactoryWithResources<Self, ASSOCIATIONS>)
        requires
            forall|d: Self::DefaultAssociations| call_requires(func, (d,)),
        ensures
            out.factory == self,
            exists|d: Self::DefaultAssociations|
                call_ensures(Self::DefaultAssociations::default, (), d) && #[trigger] call_ensures(
                    func,
                    (d,),
                    out.resources,
                ),
    {
        let defaults = Self::DefaultAssociations::default();
        let ghost given = defaults;
        let resources = func(defaults);
        let out = FactoryWithResources { factory: self, resources };
        assert(call_ensures(func, (given,), out.resources));
        out
    }
}

} // verus!
