//! Factories: values that create a resource inside a context.
use vstd::prelude::*;
use crate::tuple_hack::UnitTuple;

verus! {

/// The environment in which resources are created (a database, a test
/// harness, ...), and the error that creating a resource in it can produce.
pub trait FactoryContext {
    type Error;
}

/// Something that creates an `Output` inside a context.
pub trait Factory<CTX: FactoryContext> {
    type Output;

    /// What creating with `self` may do: move the context from `before` to
    /// `after` and produce `out`. Says nothing unless an implementation states more.
    open spec fn creates(self, before: CTX, after: CTX, out: Result<Self::Output, CTX::Error>) -> bool
        where Self: Sized
    {
        true
    }

    fn create(self, ctx: &mut CTX) -> (out: Result<Self::Output, CTX::Error>)
        where Self: Sized
        ensures
            self.creates(*old(ctx), *final(ctx), out),
    ;
}

impl<CTX: FactoryContext, F: Factory<CTX>> Factory<CTX> for UnitTuple<F> {
    type Output = F::Output;

    /// Creates exactly as the wrapped factory.
    open spec fn creates(self, before: CTX, after: CTX, out: Result<Self::Output, CTX::Error>) -> bool {
        self.item().creates(before, after, out)
    }

    fn create(self, ctx: &mut CTX) -> (out: Result<Self::Output, CTX::Error>) {
        proof {
            self.lemma_item_is_held();
        }
        self.0.create(ctx)
    }
}

impl<CTX: FactoryContext, F: Factory<CTX>> Factory<CTX> for Box<F> {
    type Output = F::Output;

    /// Creates exactly as the boxed factory.
    open spec fn creates(self, before: CTX, after: CTX, out: Result<Self::Output, CTX::Error>) -> bool {
        (*self).creates(before, after, out)
    }

    fn create(self, ctx: &mut CTX) -> (out: Result<Self::Output, CTX::Error>) {
        (*self).create(ctx)
    }
}

impl<CTX: FactoryContext, A: Factory<CTX>, B: Factory<CTX>> Factory<CTX> for (A, B) {
    type Output = (A::Output, B::Output);

    /// The first factory creates first; the rest create in order from the
    /// context it leaves, and creation stops at the first error.
    open spec fn creates(self, before: CTX, after: CTX, out: Result<Self::Output, CTX::Error>) -> bool {
        match out {
            Ok(t) => exists|mid: CTX| #![trigger self.0.creates(before, mid, Ok(t.0))]
                self.0.creates(before, mid, Ok(t.0)) && self.1.creates(mid, after, Ok(t.1)),
            Err(e) => self.0.creates(before, after, Err(e)) || exists|mid: CTX, o0: A::Output| #![trigger self.0.creates(before, mid, Ok(o0))]
                self.0.creates(before, mid, Ok(o0)) && self.1.creates(mid, after, Err(e)),
        }
    }

    fn create(self, ctx: &mut CTX) -> (out: Result<Self::Output, CTX::Error>) {
        let ghost before = *ctx;
        let (t0, t1) = self;
        match t0.create(ctx) {
            Err(e) => Err(e),
            Ok(o0) => {
                let ghost mid = *ctx;
                let ghost first_created = Ok::<A::Output, CTX::Error>(o0);
                assert(self.0.creates(before, mid, first_created));
                match t1.create(ctx) {
                    Ok(o1) => {
                        let r = Ok((o0, o1));
                        assert(self.0.creates(before, mid, Ok(r->Ok_0.0)));
                        r
                    }
                    Err(e) => Err(e),
                }
            }
        }
    }
}

impl<CTX: FactoryContext, A: Factory<CTX>, B: Factory<CTX>, C: Factory<CTX>> Factory<CTX> for (A, B, C) {
    type Output = (A::Output, B::Output, C::Output);

    /// The first factory creates first; the rest create in order from the
    /// context it leaves, and creation stops at the first error.
    open spec fn creates(self, before: CTX, after: CTX, out: Result<Self::Output, CTX::Error>) -> bool {
        match out {
            Ok(t) => exists|mid: CTX| #![trigger self.0.creates(before, mid, Ok(t.0))]
                self.0.creates(before, mid, Ok(t.0)) && (self.1, self.2).creates(mid, after, Ok((t.1, t.2))),
            Err(e) => self.0.creates(before, after, Err(e)) || exists|mid: CTX, o0: A::Output| #![trigger self.0.creates(before, mid, Ok(o0))]
                self.0.creates(before, mid, Ok(o0)) && (self.1, self.2).creates(mid, after, Err(e)),
        }
    }

    fn create(self, ctx: &mut CTX) -> (out: Result<Self::Output, CTX::Error>) {
        let ghost before = *ctx;
        let (t0, t1, t2) = self;
        match t0.create(ctx) {
            Err(e) => Err(e),
            Ok(o0) => {
                let ghost mid = *ctx;
                let ghost first_created = Ok::<A::Output, CTX::Error>(o0);
                assert(self.0.creates(before, mid, first_created));
                match (t1, t2).create(ctx) {
                    Ok((o1, o2)) => {
                        let r = Ok((o0, o1, o2));
                        assert(self.0.creates(before, mid, Ok(r->Ok_0.0)));
                        r
                    }
                    Err(e) => Err(e),
                }
            }
        }
    }
}

impl<CTX: FactoryContext, A: Factory<CTX>, B: Factory<CTX>, C: Factory<CTX>, D: Factory<CTX>> Factory<CTX> for (A, B, C, D) {
    type Output = (A::Output, B::Output, C::Output, D::Output);

    /// The first factory creates first; the rest create in order from the
    /// context it leaves, and creation stops at the first error.
    open spec fn creates(self, before: CTX, after: CTX, out: Result<Self::Output, CTX::Error>) -> bool {
        match out {
            Ok(t) => exists|mid: CTX| #![trigger self.0.creates(before, mid, Ok(t.0))]
                self.0.creates(before, mid, Ok(t.0)) && (self.1, self.2, self.3).creates(mid, after, Ok((t.1, t.2, t.3))),
            Err(e) => self.0.creates(before, after, Err(e)) || exists|mid: CTX, o0: A::Output| #![trigger self.0.creates(before, mid, Ok(o0))]
                self.0.creates(before, mid, Ok(o0)) && (self.1, self.2, self.3).creates(mid, after, Err(e)),
        }
    }

    fn create(self, ctx: &mut CTX) -> (out: Result<Self::Output, CTX::Error>) {
        let ghost before = *ctx;
        let (t0, t1, t2, t3) = self;
        match t0.create(ctx) {
            Err(e) => Err(e),
            Ok(o0) => {
                let ghost mid = *ctx;
                let ghost first_created = Ok::<A::Output, CTX::Error>(o0);
                assert(self.0.creates(before, mid, first_created));
                match (t1, t2, t3).create(ctx) {
                    Ok((o1, o2, o3)) => {
                        let r = Ok((o0, o1, o2, o3));
                        assert(self.0.creates(before, mid, Ok(r->Ok_0.0)));
                        r
                    }
                    Err(e) => Err(e),
                }
            }
        }
    }
}

impl<CTX: FactoryContext, A: Factory<CTX>, B: Factory<CTX>, C: Factory<CTX>, D: Factory<CTX>, E: Factory<CTX>> Factory<CTX> for (A, B, C, D, E) {
    type Output = (A::Output, B::Output, C::Output, D::Output, E::Output);

    /// The first factory creates first; the rest create in order from the
    /// context it leaves, and creation stops at the first error.
    open spec fn creates(self, before: CTX, after: CTX, out: Result<Self::Output, CTX::Error>) -> bool {
        match out {
            Ok(t) => exists|mid: CTX| #![trigger self.0.creates(before, mid, Ok(t.0))]
                self.0.creates(before, mid, Ok(t.0)) && (self.1, self.2, self.3, self.4).creates(mid, after, Ok((t.1, t.2, t.3, t.4))),
            Err(e) => self.0.creates(before, after, Err(e)) || exists|mid: CTX, o0: A::Output| #![trigger self.0.creates(before, mid, Ok(o0))]
                self.0.creates(before, mid, Ok(o0)) && (self.1, self.2, self.3, self.4).creates(mid, after, Err(e)),
        }
    }

    fn create(self, ctx: &mut CTX) -> (out: Result<Self::Output, CTX::Error>) {
        let ghost before = *ctx;
        let (t0, t1, t2, t3, t4) = self;
        match t0.create(ctx) {
            Err(e) => Err(e),
            Ok(o0) => {
                let ghost mid = *ctx;
                let ghost first_created = Ok::<A::Output, CTX::Error>(o0);
                assert(self.0.creates(before, mid, first_created));
                match (t1, t2, t3, t4).create(ctx) {
                    Ok((o1, o2, o3, o4)) => {
                        let r = Ok((o0, o1, o2, o3, o4));
                        assert(self.0.creates(before, mid, Ok(r->Ok_0.0)));
                        r
                    }
                    Err(e) => Err(e),
                }
            }
        }
    }
}

impl<CTX: FactoryContext, A: Factory<CTX>, B: Factory<CTX>, C: Factory<CTX>, D: Factory<CTX>, E: Factory<CTX>, F: Factory<CTX>> Factory<CTX> for (A, B, C, D, E, F) {
    type Output = (A::Output, B::Output, C::Output, D::Output, E::Output, F::Output);

    /// The first factory creates first; the rest create in order from the
    /// context it leaves, and creation stops at the first error.
    open spec fn creates(self, before: CTX, after: CTX, out: Result<Self::Output, CTX::Error>) -> bool {
        match out {
            Ok(t) => exists|mid: CTX| #![trigger self.0.creates(before, mid, Ok(t.0))]
                self.0.creates(before, mid, Ok(t.0)) && (self.1, self.2, self.3, self.4, self.5).creates(mid, after, Ok((t.1, t.2, t.3, t.4, t.5))),
            Err(e) => self.0.creates(before, after, Err(e)) || exists|mid: CTX, o0: A::Output| #![trigger self.0.creates(before, mid, Ok(o0))]
                self.0.creates(before, mid, Ok(o0)) && (self.1, self.2, self.3, self.4, self.5).creates(mid, after, Err(e)),
        }
    }

    fn create(self, ctx: &mut CTX) -> (out: Result<Self::Output, CTX::Error>) {
        let ghost before = *ctx;
        let (t0, t1, t2, t3, t4, t5) = self;
        match t0.create(ctx) {
            Err(e) => Err(e),
            Ok(o0) => {
                let ghost mid = *ctx;
                let ghost first_created = Ok::<A::Output, CTX::Error>(o0);
                assert(self.0.creates(before, mid, first_created));
                match (t1, t2, t3, t4, t5).create(ctx) {
                    Ok((o1, o2, o3, o4, o5)) => {
                        let r = Ok((o0, o1, o2, o3, o4, o5));
                        assert(self.0.creates(before, mid, Ok(r->Ok_0.0)));
                        r
                    }
                    Err(e) => Err(e),
                }
            }
        }
    }
}

impl<CTX: FactoryContext, A: Factory<CTX>, B: Factory<CTX>, C: Factory<CTX>, D: Factory<CTX>, E: Factory<CTX>, F: Factory<CTX>, G: Factory<CTX>> Factory<CTX> for (A, B, C, D, E, F, G) {
    type Output = (A::Output, B::Output, C::Output, D::Output, E::Output, F::Output, G::Output);

    /// The first factory creates first; the rest create in order from the
    /// context it leaves, and creation stops at the first error.
    open spec fn creates(self, before: CTX, after: CTX, out: Result<Self::Output, CTX::Error>) -> bool {
        match out {
            Ok(t) => exists|mid: CTX| #![trigger self.0.creates(before, mid, Ok(t.0))]
                self.0.creates(before, mid, Ok(t.0)) && (self.1, self.2, self.3, self.4, self.5, self.6).creates(mid, after, Ok((t.1, t.2, t.3, t.4, t.5, t.6))),
            Err(e) => self.0.creates(before, after, Err(e)) || exists|mid: CTX, o0: A::Output| #![trigger self.0.creates(before, mid, Ok(o0))]
                self.0.creates(before, mid, Ok(o0)) && (self.1, self.2, self.3, self.4, self.5, self.6).creates(mid, after, Err(e)),
        }
    }

    fn create(self, ctx: &mut CTX) -> (out: Result<Self::Output, CTX::Error>) {
        let ghost before = *ctx;
        let (t0, t1, t2, t3, t4, t5, t6) = self;
        match t0.create(ctx) {
            Err(e) => Err(e),
            Ok(o0) => {
                let ghost mid = *ctx;
                let ghost first_created = Ok::<A::Output, CTX::Error>(o0);
                assert(self.0.creates(before, mid, first_created));
                match (t1, t2, t3, t4, t5, t6).create(ctx) {
                    Ok((o1, o2, o3, o4, o5, o6)) => {
                        let r = Ok((o0, o1, o2, o3, o4, o5, o6));
                        assert(self.0.creates(before, mid, Ok(r->Ok_0.0)));
                        r
                    }
                    Err(e) => Err(e),
                }
            }
        }
    }
}

impl<CTX: FactoryContext, A: Factory<CTX>, B: Factory<CTX>, C: Factory<CTX>, D: Factory<CTX>, E: Factory<CTX>, F: Factory<CTX>, G: Factory<CTX>, H: Factory<CTX>> Factory<CTX> for (A, B, C, D, E, F, G, H) {
    type Output = (A::Output, B::Output, C::Output, D::Output, E::Output, F::Output, G::Output, H::Output);

    /// The first factory creates first; the rest create in order from the
    /// context it leaves, and creation stops at the first error.
    open spec fn creates(self, before: CTX, after: CTX, out: Result<Self::Output, CTX::Error>) -> bool {
        match out {
            Ok(t) => exists|mid: CTX| #![trigger self.0.creates(before, mid, Ok(t.0))]
                self.0.creates(before, mid, Ok(t.0)) && (self.1, self.2, self.3, self.4, self.5, self.6, self.7).creates(mid, after, Ok((t.1, t.2, t.3, t.4, t.5, t.6, t.7))),
            Err(e) => self.0.creates(before, after, Err(e)) || exists|mid: CTX, o0: A::Output| #![trigger self.0.creates(before, mid, Ok(o0))]
                self.0.creates(before, mid, Ok(o0)) && (self.1, self.2, self.3, self.4, self.5, self.6, self.7).creates(mid, after, Err(e)),
        }
    }

    fn create(self, ctx: &mut CTX) -> (out: Result<Self::Output, CTX::Error>) {
        let ghost before = *ctx;
        let (t0, t1, t2, t3, t4, t5, t6, t7) = self;
        match t0.create(ctx) {
            Err(e) => Err(e),
            Ok(o0) => {
                let ghost mid = *ctx;
                let ghost first_created = Ok::<A::Output, CTX::Error>(o0);
                assert(self.0.creates(before, mid, first_created));
                match (t1, t2, t3, t4, t5, t6, t7).create(ctx) {
                    Ok((o1, o2, o3, o4, o5, o6, o7)) => {
                        let r = Ok((o0, o1, o2, o3, o4, o5, o6, o7));
                        assert(self.0.creates(before, mid, Ok(r->Ok_0.0)));
                        r
                    }
                    Err(e) => Err(e),
                }
            }
        }
    }
}

impl<CTX: FactoryContext, A: Factory<CTX>, B: Factory<CTX>, C: Factory<CTX>, D: Factory<CTX>, E: Factory<CTX>, F: Factory<CTX>, G: Factory<CTX>, H: Factory<CTX>, I: Factory<CTX>> Factory<CTX> for (A, B, C, D, E, F, G, H, I) {
    type Output = (A::Output, B::Output, C::Output, D::Output, E::Output, F::Output, G::Output, H::Output, I::Output);

    /// The first factory creates first; the rest create in order from the
    /// context it leaves, and creation stops at the first error.
    open spec fn creates(self, before: CTX, after: CTX, out: Result<Self::Output, CTX::Error>) -> bool {
        match out {
            Ok(t) => exists|mid: CTX| #![trigger self.0.creates(before, mid, Ok(t.0))]
                self.0.creates(before, mid, Ok(t.0)) && (self.1, self.2, self.3, self.4, self.5, self.6, self.7, self.8).creates(mid, after, Ok((t.1, t.2, t.3, t.4, t.5, t.6, t.7, t.8))),
            Err(e) => self.0.creates(before, after, Err(e)) || exists|mid: CTX, o0: A::Output| #![trigger self.0.creates(before, mid, Ok(o0))]
                self.0.creates(before, mid, Ok(o0)) && (self.1, self.2, self.3, self.4, self.5, self.6, self.7, self.8).creates(mid, after, Err(e)),
        }
    }

    fn create(self, ctx: &mut CTX) -> (out: Result<Self::Output, CTX::Error>) {
        let ghost before = *ctx;
        let (t0, t1, t2, t3, t4, t5, t6, t7, t8) = self;
        match t0.create(ctx) {
            Err(e) => Err(e),
            Ok(o0) => {
                let ghost mid = *ctx;
                let ghost first_created = Ok::<A::Output, CTX::Error>(o0);
                assert(self.0.creates(before, mid, first_created));
                match (t1, t2, t3, t4, t5, t6, t7, t8).create(ctx) {
                    Ok((o1, o2, o3, o4, o5, o6, o7, o8)) => {
                        let r = Ok((o0, o1, o2, o3, o4, o5, o6, o7, o8));
                        assert(self.0.creates(before, mid, Ok(r->Ok_0.0)));
                        r
                    }
                    Err(e) => Err(e),
                }
            }
        }
    }
}

impl<CTX: FactoryContext, A: Factory<CTX>, B: Factory<CTX>, C: Factory<CTX>, D: Factory<CTX>, E: Factory<CTX>, F: Factory<CTX>, G: Factory<CTX>, H: Factory<CTX>, I: Factory<CTX>, J: Factory<CTX>> Factory<CTX> for (A, B, C, D, E, F, G, H, I, J) {
    type Output = (A::Output, B::Output, C::Output, D::Output, E::Output, F::Output, G::Output, H::Output, I::Output, J::Output);

    /// The first factory creates first; the rest create in order from the
    /// context it leaves, and creation stops at the first error.
    open spec fn creates(self, before: CTX, after: CTX, out: Result<Self::Output, CTX::Error>) -> bool {
        match out {
            Ok(t) => exists|mid: CTX| #![trigger self.0.creates(before, mid, Ok(t.0))]
                self.0.creates(before, mid, Ok(t.0)) && (self.1, self.2, self.3, self.4, self.5, self.6, self.7, self.8, self.9).creates(mid, after, Ok((t.1, t.2, t.3, t.4, t.5, t.6, t.7, t.8, t.9))),
            Err(e) => self.0.creates(before, after, Err(e)) || exists|mid: CTX, o0: A::Output| #![trigger self.0.creates(before, mid, Ok(o0))]
                self.0.creates(before, mid, Ok(o0)) && (self.1, self.2, self.3, self.4, self.5, self.6, self.7, self.8, self.9).creates(mid, after, Err(e)),
        }
    }

    fn create(self, ctx: &mut CTX) -> (out: Result<Self::Output, CTX::Error>) {
        let ghost before = *ctx;
        let (t0, t1, t2, t3, t4, t5, t6, t7, t8, t9) = self;
        match t0.create(ctx) {
            Err(e) => Err(e),
            Ok(o0) => {
                let ghost mid = *ctx;
                let ghost first_created = Ok::<A::Output, CTX::Error>(o0);
                assert(self.0.creates(before, mid, first_created));
                match (t1, t2, t3, t4, t5, t6, t7, t8, t9).create(ctx) {
                    Ok((o1, o2, o3, o4, o5, o6, o7, o8, o9)) => {
                        let r = Ok((o0, o1, o2, o3, o4, o5, o6, o7, o8, o9));
                        assert(self.0.creates(before, mid, Ok(r->Ok_0.0)));
                        r
                    }
                    Err(e) => Err(e),
                }
            }
        }
    }
}

impl<CTX: FactoryContext, A: Factory<CTX>, B: Factory<CTX>, C: Factory<CTX>, D: Factory<CTX>, E: Factory<CTX>, F: Factory<CTX>, G: Factory<CTX>, H: Factory<CTX>, I: Factory<CTX>, J: Factory<CTX>, K: Factory<CTX>> Factory<CTX> for (A, B, C, D, E, F, G, H, I, J, K) {
    type Output = (A::Output, B::Output, C::Output, D::Output, E::Output, F::Output, G::Output, H::Output, I::Output, J::Output, K::Output);

    /// The first factory creates first; the rest create in order from the
    /// context it leaves, and creation stops at the first error.
    open spec fn creates(self, before: CTX, after: CTX, out: Result<Self::Output, CTX::Error>) -> bool {
        match out {
            Ok(t) => exists|mid: CTX| #![trigger self.0.creates(before, mid, Ok(t.0))]
                self.0.creates(before, mid, Ok(t.0)) && (self.1, self.2, self.3, self.4, self.5, self.6, self.7, self.8, self.9, self.10).creates(mid, after, Ok((t.1, t.2, t.3, t.4, t.5, t.6, t.7, t.8, t.9, t.10))),
            Err(e) => self.0.creates(before, after, Err(e)) || exists|mid: CTX, o0: A::Output| #![trigger self.0.creates(before, mid, Ok(o0))]
                self.0.creates(before, mid, Ok(o0)) && (self.1, self.2, self.3, self.4, self.5, self.6, self.7, self.8, self.9, self.10).creates(mid, after, Err(e)),
        }
    }

    fn create(self, ctx: &mut CTX) -> (out: Result<Self::Output, CTX::Error>) {
        let ghost before = *ctx;
        let (t0, t1, t2, t3, t4, t5, t6, t7, t8, t9, t10) = self;
        match t0.create(ctx) {
            Err(e) => Err(e),
            Ok(o0) => {
                let ghost mid = *ctx;
                let ghost first_created = Ok::<A::Output, CTX::Error>(o0);
                assert(self.0.creates(before, mid, first_created));
                match (t1, t2, t3, t4, t5, t6, t7, t8, t9, t10).create(ctx) {
                    Ok((o1, o2, o3, o4, o5, o6, o7, o8, o9, o10)) => {
                        let r = Ok((o0, o1, o2, o3, o4, o5, o6, o7, o8, o9, o10));
                        assert(self.0.creates(before, mid, Ok(r->Ok_0.0)));
                        r
                    }
                    Err(e) => Err(e),
                }
            }
        }
    }
}

impl<CTX: FactoryContext, A: Factory<CTX>, B: Factory<CTX>, C: Factory<CTX>, D: Factory<CTX>, E: Factory<CTX>, F: Factory<CTX>, G: Factory<CTX>, H: Factory<CTX>, I: Factory<CTX>, J: Factory<CTX>, K: Factory<CTX>, L: Factory<CTX>> Factory<CTX> for (A, B, C, D, E, F, G, H, I, J, K, L) {
    type Output = (A::Output, B::Output, C::Output, D::Output, E::Output, F::Output, G::Output, H::Output, I::Output, J::Output, K::Output, L::Output);

    /// The first factory creates first; the rest create in order from the
    /// context it leaves, and creation stops at the first error.
    open spec fn creates(self, before: CTX, after: CTX, out: Result<Self::Output, CTX::Error>) -> bool {
        match out {
            Ok(t) => exists|mid: CTX| #![trigger self.0.creates(before, mid, Ok(t.0))]
                self.0.creates(before, mid, Ok(t.0)) && (self.1, self.2, self.3, self.4, self.5, self.6, self.7, self.8, self.9, self.10, self.11).creates(mid, after, Ok((t.1, t.2, t.3, t.4, t.5, t.6, t.7, t.8, t.9, t.10, t.11))),
            Err(e) => self.0.creates(before, after, Err(e)) || exists|mid: CTX, o0: A::Output| #![trigger self.0.creates(before, mid, Ok(o0))]
                self.0.creates(before, mid, Ok(o0)) && (self.1, self.2, self.3, self.4, self.5, self.6, self.7, self.8, self.9, self.10, self.11).creates(mid, after, Err(e)),
        }
    }

    fn create(self, ctx: &mut CTX) -> (out: Result<Self::Output, CTX::Error>) {
        let ghost before = *ctx;
        let (t0, t1, t2, t3, t4, t5, t6, t7, t8, t9, t10, t11) = self;
        match t0.create(ctx) {
            Err(e) => Err(e),
            Ok(o0) => {
                let ghost mid = *ctx;
                let ghost first_created = Ok::<A::Output, CTX::Error>(o0);
                assert(self.0.creates(before, mid, first_created));
                match (t1, t2, t3, t4, t5, t6, t7, t8, t9, t10, t11).create(ctx) {
                    Ok((o1, o2, o3, o4, o5, o6, o7, o8, o9, o10, o11)) => {
                        let r = Ok((o0, o1, o2, o3, o4, o5, o6, o7, o8, o9, o10, o11));
                        assert(self.0.creates(before, mid, Ok(r->Ok_0.0)));
                        r
                    }
                    Err(e) => Err(e),
                }
            }
        }
    }
}


/// Turns a set of attributes into a resource stored in the context.
pub trait BuildResource<CTX: FactoryContext> {
    type Output;

    fn build_resource(self, ctx: &mut CTX) -> Result<Self::Output, CTX::Error>
        where Self: Sized;
}

} // verus!

verus! {

/// A tuple of one factory creates exactly as that factory does.
pub proof fn lemma_unit_tuple_creates_as_its_item<CTX: FactoryContext, F: Factory<CTX>>(
    tuple: UnitTuple<F>,
    before: CTX,
    after: CTX,
    out: Result<F::Output, CTX::Error>,
)
    ensures
        tuple.creates(before, after, out) <==> tuple.item().creates(before, after, out),
{
    tuple.lemma_item_is_held();
}

/// When the first factory of a pair cannot create its resource from
/// `before`, the second one is never created: every outcome of the pair is
/// an error of the first factory.
pub proof fn lemma_pair_stops_at_first_error<CTX: FactoryContext, A: Factory<CTX>, B: Factory<CTX>>(
    pair: (A, B),
    before: CTX,
    after: CTX,
    out: Result<(A::Output, B::Output), CTX::Error>,
)
    requires
        forall|mid: CTX, o: A::Output| !#[trigger] pair.0.creates(before, mid, Ok(o)),
        pair.creates(before, after, out),
    ensures
        out matches Err(e) && pair.0.creates(before, after, Err(e)),
{
    match out {
        Ok(t) => {
            let mid = choose|mid: CTX| #[trigger] pair.0.creates(before, mid, Ok(t.0)) && pair.1.creates(mid, after, Ok(t.1));
            assert(pair.0.creates(before, mid, Ok(t.0)));
        },
        Err(e) => {},
    }
}

/// When both factories of a pair create their resources, the pair's resource
/// is theirs, in order, the second created from the context the first left.
pub proof fn lemma_pair_creates_in_order<CTX: FactoryContext, A: Factory<CTX>, B: Factory<CTX>>(
    pair: (A, B),
    before: CTX,
    mid: CTX,
    after: CTX,
    first: A::Output,
    second: B::Output,
)
    requires
        pair.0.creates(before, mid, Ok(first)),
        pair.1.creates(mid, after, Ok(second)),
    ensures
        pair.creates(before, after, Ok((first, second))),
{
    let out = Ok::<(A::Output, B::Output), CTX::Error>((first, second));
    assert(pair.0.creates(before, mid, Ok(out->Ok_0.0)));
}

} // verus!
