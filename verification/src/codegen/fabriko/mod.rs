//! Generation of a wrapper of `Fabriko` for one context, which exposes one
//! function per factory.
use vstd::prelude::*;
use crate::codegen::text::{
    brace, contains_text, joined_map, lemma_contains_in_brace, lemma_contains_in_sep, lemma_contains_in_suffix,
    lemma_joined_map_contains_piece, lemma_joined_map_step, push_brace, push_stream, sep,
};
use crate::codegen::tokens::{accepted_by_proc_macro2, tokens_of, DeriveError};

pub mod attribute;

use crate::codegen::fabriko::attribute::{factory_fn_text, FabrikoDeriveAttribute};

verus! {

/// A context type for which a `Fabriko` wrapper is generated.
pub struct FabrikoDeriveInput {
    /// The context type's name.
    pub ident: String,
    /// The factories the wrapper exposes, in the order given.
    pub factories: Vec<FabrikoDeriveAttribute>,
    /// The name of the wrapper.
    pub fabriko_wrapper_name: String,
}

pub open spec fn exposed_piece(context: Seq<char>) -> spec_fn(FabrikoDeriveAttribute) -> Seq<char> {
    |a: FabrikoDeriveAttribute| factory_fn_text(a, context)
}

/// The wrapper struct and its methods `new`, `bundle` and one per exposed factory.
pub open spec fn fabriko_text(input: FabrikoDeriveInput) -> Seq<char> {
    let w = input.fabriko_wrapper_name@;
    let c = input.ident@;
    "# [derive (Debug , Default)] pub struct "@ + w + " (:: fabriko :: Fabriko < "@ + c + " >) ; impl "@ + w + " "@
        + brace(
        sep(
            "pub fn new (cx : "@ + c + ") -> Self { "@ + w
                + " (:: fabriko :: Fabriko :: new (cx)) } pub fn bundle < B : :: fabriko :: FactoryBundle < "@ + c
                + " >> (& mut self) -> B { self . 0 . bundle () }"@,
            joined_map(input.factories@, exposed_piece(c)),
        ),
    )
}

impl FabrikoDeriveInput {
    /// Source text of the wrapper.
    pub fn derive_fabriko_wrapper(&self) -> (out: String)
        ensures
            out@ == fabriko_text(*self),
    {
        let w = &self.fabriko_wrapper_name;
        let c = &self.ident;
        let mut body = String::new();
        body.append("pub fn new (cx : ");
        body.append(c.as_str());
        body.append(") -> Self { ");
        body.append(w.as_str());
        body.append(" (:: fabriko :: Fabriko :: new (cx)) } pub fn bundle < B : :: fabriko :: FactoryBundle < ");
        body.append(c.as_str());
        body.append(" >> (& mut self) -> B { self . 0 . bundle () }");
        let ghost head = body@;
        let mut exposed = String::new();
        let mut i: usize = 0;
        while i < self.factories.len()
            invariant
                i <= self.factories.len(),
                exposed@ == joined_map(self.factories@.take(i as int), exposed_piece(c@)),
            decreases self.factories.len() - i,
        {
            proof {
                lemma_joined_map_step(self.factories@, exposed_piece(c@), i as int);
            }
            let piece = self.factories[i].derive_factory_fn_for_wrapper(c);
            push_stream(&mut exposed, piece.as_str());
            i = i + 1;
        }
        assert(self.factories@.take(self.factories.len() as int) =~= self.factories@);
        push_stream(&mut body, exposed.as_str());
        let mut out = String::new();
        out.append("# [derive (Debug , Default)] pub struct ");
        out.append(w.as_str());
        out.append(" (:: fabriko :: Fabriko < ");
        out.append(c.as_str());
        out.append(" >) ; impl ");
        out.append(w.as_str());
        out.append(" ");
        push_brace(&mut out, body.as_str());
        assert(head =~= "pub fn new (cx : "@ + c@ + ") -> Self { "@ + w@
            + " (:: fabriko :: Fabriko :: new (cx)) } pub fn bundle < B : :: fabriko :: FactoryBundle < "@ + c@
            + " >> (& mut self) -> B { self . 0 . bundle () }"@);
        assert(out@ =~= fabriko_text(*self));
        out
    }
}

/// The wrapper as tokens: the text `derive_fabriko_wrapper` generates, lexed
/// by `proc_macro2`; a success means `proc_macro2`'s own lexer
/// accepts that text, and an error means the text was not accepted.
pub fn do_derive_fabriko(input: &FabrikoDeriveInput) -> (r: Result<proc_macro2::TokenStream, DeriveError>)
    ensures
        r is Ok ==> accepted_by_proc_macro2(fabriko_text(*input)),
        r matches Err(e) ==> e == DeriveError::InvalidTokens,
{
    let code = input.derive_fabriko_wrapper();
    tokens_of(&code)
}

/// The wrapper exposes every declared factory: for each of them, the
/// function that creates with that factory inside the context occurs in the
/// generated text.
pub proof fn lemma_wrapper_exposes_every_factory(input: FabrikoDeriveInput, k: int)
    requires
        0 <= k < input.factories@.len(),
    ensures
        contains_text(fabriko_text(input), factory_fn_text(input.factories@[k], input.ident@)),
{
    let w = input.fabriko_wrapper_name@;
    let c = input.ident@;
    let head = "pub fn new (cx : "@ + c + ") -> Self { "@ + w
        + " (:: fabriko :: Fabriko :: new (cx)) } pub fn bundle < B : :: fabriko :: FactoryBundle < "@ + c
        + " >> (& mut self) -> B { self . 0 . bundle () }"@;
    let exposed = joined_map(input.factories@, exposed_piece(c));
    let needle = factory_fn_text(input.factories@[k], c);
    lemma_joined_map_contains_piece(input.factories@, exposed_piece(c), k);
    assert((exposed_piece(c))(input.factories@[k]) == needle);
    lemma_contains_in_sep(head, exposed, needle);
    lemma_contains_in_brace(sep(head, exposed), needle);
    let prefix = "# [derive (Debug , Default)] pub struct "@ + w + " (:: fabriko :: Fabriko < "@ + c + " >) ; impl "@ + w
        + " "@;
    lemma_contains_in_suffix(prefix, brace(sep(head, exposed)), needle);
}

} // verus!
