use vstd::prelude::*;

verus! {

/// A resource that can be referred to by an identifier.
pub trait WithIdentifier {
    type ID;

    fn extract_id(&self) -> Self::ID;
}

/// `id` is an identifier that `extract_id` may give for `resource`: what
/// the resource's own implementation of `extract_id` states, and no more.
pub open spec fn identifies<R: WithIdentifier>(resource: R, id: R::ID) -> bool {
    call_ensures(R::extract_id, (&resource,), id)
}

} // verus!
