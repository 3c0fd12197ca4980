//! Tuples that grow one element at a time without nesting.
use vstd::prelude::*;

verus! {

/// A tuple of one element.
pub struct UnitTuple<T>(pub(crate) T);

impl<T> UnitTuple<T> {
    /// The tuple's only element.
    pub closed spec fn item(self) -> T {
        self.0
    }

    /// The element is what the tuple holds.
    pub(crate) proof fn lemma_item_is_held(self)
        ensures
            self.item() == self.0,
    {
    }
}

/// Appending an element of type `T` to a tuple gives a tuple one element longer.
pub trait AppendTuple<T> {
    type Output;

    fn append(self, add: T) -> Self::Output
        where Self: Sized;
}

impl<T> AppendTuple<T> for () {
    type Output = UnitTuple<T>;

    fn append(self, add: T) -> (out: UnitTuple<T>)
        ensures
            out.item() == add,
    {
        UnitTuple(add)
    }
}

impl<A, T> AppendTuple<T> for UnitTuple<A> {
    type Output = (A, T);

    fn append(self, add: T) -> (out: (A, T))
        ensures
            out == (self.item(), add),
    {
        (self.0, add)
    }
}

impl<A, B, U> AppendTuple<U> for (A, B) {
    type Output = (A, B, U);

    fn append(self, add: U) -> (out: (A, B, U))
        ensures
            out == (self.0, self.1, add),
    {
        let (t0, t1) = self;
        (t0, t1, add)
    }
}

impl<A, B, C, U> AppendTuple<U> for (A, B, C) {
    type Output = (A, B, C, U);

    fn append(self, add: U) -> (out: (A, B, C, U))
        ensures
            out == (self.0, self.1, self.2, add),
    {
        let (t0, t1, t2) = self;
        (t0, t1, t2, add)
    }
}

impl<A, B, C, D, U> AppendTuple<U> for (A, B, C, D) {
    type Output = (A, B, C, D, U);

    fn append(self, add: U) -> (out: (A, B, C, D, U))
        ensures
            out == (self.0, self.1, self.2, self.3, add),
    {
        let (t0, t1, t2, t3) = self;
        (t0, t1, t2, t3, add)
    }
}

impl<A, B, C, D, E, U> AppendTuple<U> for (A, B, C, D, E) {
    type Output = (A, B, C, D, E, U);

    fn append(self, add: U) -> (out: (A, B, C, D, E, U))
        ensures
            out == (self.0, self.1, self.2, self.3, self.4, add),
    {
        let (t0, t1, t2, t3, t4) = self;
        (t0, t1, t2, t3, t4, add)
    }
}

impl<A, B, C, D, E, F, U> AppendTuple<U> for (A, B, C, D, E, F) {
    type Output = (A, B, C, D, E, F, U);

    fn append(self, add: U) -> (out: (A, B, C, D, E, F, U))
        ensures
            out == (self.0, self.1, self.2, self.3, self.4, self.5, add),
    {
        let (t0, t1, t2, t3, t4, t5) = self;
        (t0, t1, t2, t3, t4, t5, add)
    }
}

impl<A, B, C, D, E, F, G, U> AppendTuple<U> for (A, B, C, D, E, F, G) {
    type Output = (A, B, C, D, E, F, G, U);

    fn append(self, add: U) -> (out: (A, B, C, D, E, F, G, U))
        ensures
            out == (self.0, self.1, self.2, self.3, self.4, self.5, self.6, add),
    {
        let (t0, t1, t2, t3, t4, t5, t6) = self;
        (t0, t1, t2, t3, t4, t5, t6, add)
    }
}

impl<A, B, C, D, E, F, G, H, U> AppendTuple<U> for (A, B, C, D, E, F, G, H) {
    type Output = (A, B, C, D, E, F, G, H, U);

    fn append(self, add: U) -> (out: (A, B, C, D, E, F, G, H, U))
        ensures
            out == (self.0, self.1, self.2, self.3, self.4, self.5, self.6, self.7, add),
    {
        let (t0, t1, t2, t3, t4, t5, t6, t7) = self;
        (t0, t1, t2, t3, t4, t5, t6, t7, add)
    }
}

impl<A, B, C, D, E, F, G, H, I, U> AppendTuple<U> for (A, B, C, D, E, F, G, H, I) {
    type Output = (A, B, C, D, E, F, G, H, I, U);

    fn append(self, add: U) -> (out: (A, B, C, D, E, F, G, H, I, U))
        ensures
            out == (self.0, self.1, self.2, self.3, self.4, self.5, self.6, self.7, self.8, add),
    {
        let (t0, t1, t2, t3, t4, t5, t6, t7, t8) = self;
        (t0, t1, t2, t3, t4, t5, t6, t7, t8, add)
    }
}

impl<A, B, C, D, E, F, G, H, I, J, U> AppendTuple<U> for (A, B, C, D, E, F, G, H, I, J) {
    type Output = (A, B, C, D, E, F, G, H, I, J, U);

    fn append(self, add: U) -> (out: (A, B, C, D, E, F, G, H, I, J, U))
        ensures
            out == (self.0, self.1, self.2, self.3, self.4, self.5, self.6, self.7, self.8, self.9, add),
    {
        let (t0, t1, t2, t3, t4, t5, t6, t7, t8, t9) = self;
        (t0, t1, t2, t3, t4, t5, t6, t7, t8, t9, add)
    }
}

impl<A, B, C, D, E, F, G, H, I, J, K, U> AppendTuple<U> for (A, B, C, D, E, F, G, H, I, J, K) {
    type Output = (A, B, C, D, E, F, G, H, I, J, K, U);

    fn append(self, add: U) -> (out: (A, B, C, D, E, F, G, H, I, J, K, U))
        ensures
            out == (self.0, self.1, self.2, self.3, self.4, self.5, self.6, self.7, self.8, self.9, self.10, add),
    {
        let (t0, t1, t2, t3, t4, t5, t6, t7, t8, t9, t10) = self;
        (t0, t1, t2, t3, t4, t5, t6, t7, t8, t9, t10, add)
    }
}

impl<A, B, C, D, E, F, G, H, I, J, K, L, U> AppendTuple<U> for (A, B, C, D, E, F, G, H, I, J, K, L) {
    type Output = (A, B, C, D, E, F, G, H, I, J, K, L, U);

    fn append(self, add: U) -> (out: (A, B, C, D, E, F, G, H, I, J, K, L, U))
        ensures
            out == (self.0, self.1, self.2, self.3, self.4, self.5, self.6, self.7, self.8, self.9, self.10, self.11, add),
    {
        let (t0, t1, t2, t3, t4, t5, t6, t7, t8, t9, t10, t11) = self;
        (t0, t1, t2, t3, t4, t5, t6, t7, t8, t9, t10, t11, add)
    }
}


} // verus!
