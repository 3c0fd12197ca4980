//! Factories for test fixtures: resources, their associations, dependant
//! attributes, mixins and bundles; and the code generation behind the
//! derives that write those factories.
use vstd::prelude::*;

pub mod associations;
pub mod bundle;
pub mod codegen;
pub mod context;
pub mod factory;
pub mod mixins;
pub mod tuple_hack;

pub use associations::belongs_to::{BelongingTo, BelongingToLink, BelongsTo, FactoryBelongingTo};
pub use associations::factory::FactoryWithResources;
pub use associations::has_many::HasMany;
pub use associations::has_one::{HasOneCreated, HasOneDefault, HasOneToCreate};
pub use associations::with_identifier::WithIdentifier;
pub use associations::{ResolveDependency, WithRelatedResources};
pub use bundle::FactoryBundle;
pub use context::Fabriko;
pub use factory::{BuildResource, Factory, FactoryContext};
pub use mixins::WithMixin;
pub use tuple_hack::{AppendTuple, UnitTuple};

verus! {
}
