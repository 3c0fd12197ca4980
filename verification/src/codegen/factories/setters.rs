//! The setters of a factory: one per field that is not a mixin.
use vstd::prelude::*;
use crate::codegen::text::{brace, joined_map, lemma_joined_map_step, push_brace, push_stream};
use crate::codegen::factories::associations::belongs_to::{belonging_to_setters_text, declare_fields_belonging_to};
use crate::codegen::factories::field::FactoryDeriveField;

verus! {

/// The setter of a field: the two setters of a field that belongs to a
/// resource, a setter that converts with `Into` when asked, else a plain one.
pub open spec fn setter_text(f: FactoryDeriveField) -> Seq<char> {
    match f.belongs_to {
        Some(association) => belonging_to_setters_text(association, f.ident@),
        None => if f.into {
            "pub fn "@ + f.ident@ + " < T : Into < "@ + f.ty@ + " >> (mut self , "@ + f.ident@
                + " : T) -> Self { self . "@ + f.ident@ + " = "@ + f.ident@ + " . into () ; self }"@
        } else {
            "pub fn "@ + f.ident@ + " (mut self , "@ + f.ident@ + " : "@ + f.ty@ + ") -> Self { self . "@
                + f.ident@ + " = "@ + f.ident@ + " ; self }"@
        },
    }
}

pub open spec fn setter_piece() -> spec_fn(FactoryDeriveField) -> Seq<char> {
    |f: FactoryDeriveField|
        if f.mixin {
            Seq::empty()
        } else {
            setter_text(f)
        }
}

/// `impl <factory> { <setters> }`
pub open spec fn setters_impl_text(factory_ident: Seq<char>, fields: Seq<FactoryDeriveField>) -> Seq<char> {
    "impl "@ + factory_ident + " "@ + brace(joined_map(fields, setter_piece()))
}

impl FactoryDeriveField {
    /// The setter of the field, unless it is a mixin.
    pub fn derive_setter(&self) -> (out: Option<String>)
        ensures
            out is Some <==> !self.mixin,
            out matches Some(text) ==> text@ == setter_text(*self),
    {
        if self.should_derive_setter() {
            match &self.belongs_to {
                Some(belongs_to) => {
                    return Some(declare_fields_belonging_to(belongs_to, &self.ident));
                },
                None => {
                    let mut out = String::new();
                    out.append("pub fn ");
                    out.append(self.ident.as_str());
                    if self.into {
                        out.append(" < T : Into < ");
                        out.append(self.ty.as_str());
                        out.append(" >> (mut self , ");
                        out.append(self.ident.as_str());
                        out.append(" : T) -> Self { self . ");
                        out.append(self.ident.as_str());
                        out.append(" = ");
                        out.append(self.ident.as_str());
                        out.append(" . into () ; self }");
                    } else {
                        out.append(" (mut self , ");
                        out.append(self.ident.as_str());
                        out.append(" : ");
                        out.append(self.ty.as_str());
                        out.append(") -> Self { self . ");
                        out.append(self.ident.as_str());
                        out.append(" = ");
                        out.append(self.ident.as_str());
                        out.append(" ; self }");
                    }
                    assert(out@ =~= setter_text(*self));
                    return Some(out);
                },
            }
        }
        None
    }
}

/// The setters of every field that is not a mixin, in one `impl` block.
pub fn derive_setters_implementations(factory_ident: &String, fields: &Vec<FactoryDeriveField>) -> (out: String)
    ensures
        out@ == setters_impl_text(factory_ident@, fields@),
{
    let mut setters = String::new();
    let mut i: usize = 0;
    while i < fields.len()
        invariant
            i <= fields.len(),
            setters@ == joined_map(fields@.take(i as int), setter_piece()),
        decreases fields.len() - i,
    {
        proof {
            lemma_joined_map_step(fields@, setter_piece(), i as int);
        }
        let piece = match fields[i].derive_setter() {
            Some(text) => text,
            None => String::new(),
        };
        push_stream(&mut setters, piece.as_str());
        i = i + 1;
    }
    assert(fields@.take(fields.len() as int) =~= fields@);
    let mut out = String::new();
    out.append("impl ");
    out.append(factory_ident.as_str());
    out.append(" ");
    push_brace(&mut out, setters.as_str());
    assert(out@ =~= setters_impl_text(factory_ident@, fields@));
    out
}

} // verus!
