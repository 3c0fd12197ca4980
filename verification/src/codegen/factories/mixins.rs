//! Fields of a factory that hold a mixin: the factory implements `WithMixin`
//! for each of them.
use vstd::prelude::*;
use crate::codegen::text::{joined_map, lemma_joined_map_step, push_stream};
use crate::codegen::factories::field::FactoryDeriveField;

verus! {

/// `impl ::fabriko::WithMixin<<ty>> for <factory>`, which applies the function
/// to the mixin held in the field.
pub open spec fn mixin_impl_text(factory_ident: Seq<char>, f: FactoryDeriveField) -> Seq<char> {
    "impl :: fabriko :: WithMixin < "@ + f.ty@ + " > for "@ + factory_ident + " { fn with_mixin < F : FnOnce ("@ + f.ty@
        + ") -> "@ + f.ty@ + " > (mut self , f : F) -> Self { self . "@ + f.ident@ + " = f (self . "@ + f.ident@
        + ") ; self } }"@
}

pub open spec fn mixin_piece(factory_ident: Seq<char>) -> spec_fn(FactoryDeriveField) -> Seq<char> {
    |f: FactoryDeriveField|
        if f.mixin {
            mixin_impl_text(factory_ident, f)
        } else {
            Seq::empty()
        }
}

impl FactoryDeriveField {
    /// The `WithMixin` implementation of the field, if it holds a mixin.
    pub fn derive_mixin_field(&self, factory_ident: &String) -> (out: Option<String>)
        ensures
            out is Some <==> self.mixin,
            out matches Some(text) ==> text@ == mixin_impl_text(factory_ident@, *self),
    {
        if self.mixin {
            let mut out = String::new();
            out.append("impl :: fabriko :: WithMixin < ");
            out.append(self.ty.as_str());
            out.append(" > for ");
            out.append(factory_ident.as_str());
            out.append(" { fn with_mixin < F : FnOnce (");
            out.append(self.ty.as_str());
            out.append(") -> ");
            out.append(self.ty.as_str());
            out.append(" > (mut self , f : F) -> Self { self . ");
            out.append(self.ident.as_str());
            out.append(" = f (self . ");
            out.append(self.ident.as_str());
            out.append(") ; self } }");
            assert(out@ =~= mixin_impl_text(factory_ident@, *self));
            return Some(out);
        }
        None
    }
}

/// The `WithMixin` implementations of every mixin field, in declaration order.
pub fn derive_mixin_implementations(factory_ident: &String, fields: &Vec<FactoryDeriveField>) -> (out: String)
    ensures
        out@ == joined_map(fields@, mixin_piece(factory_ident@)),
{
    let mut out = String::new();
    let mut i: usize = 0;
    while i < fields.len()
        invariant
            i <= fields.len(),
            out@ == joined_map(fields@.take(i as int), mixin_piece(factory_ident@)),
        decreases fields.len() - i,
    {
        proof {
            lemma_joined_map_step(fields@, mixin_piece(factory_ident@), i as int);
        }
        let piece = match fields[i].derive_mixin_field(factory_ident) {
            Some(text) => text,
            None => String::new(),
        };
        push_stream(&mut out, piece.as_str());
        i = i + 1;
    }
    assert(fields@.take(fields.len() as int) =~= fields@);
    out
}

} // verus!
