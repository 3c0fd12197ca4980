//! The fields of a resource's attributes struct, as the factory derive reads them.
use vstd::prelude::*;
use crate::codegen::text::{joined_map, lemma_joined_map_step, push_stream};
use crate::codegen::factories::associations::belongs_to::BelongsToAssociation;

verus! {

/// A named field of the attributes struct, with what `#[factory(..)]` says of it.
pub struct FactoryDeriveField {
    /// The field's name.
    pub ident: String,
    /// The source text of the field's type.
    pub ty: String,
    /// The field holds a mixin: it gets no setter but a `WithMixin` implementation.
    pub mixin: bool,
    /// The setter takes anything that converts `Into` the field's type.
    pub into: bool,
    /// The source text of the expression that computes the field from the others.
    pub dependant: Option<String>,
    /// The resource the field identifies, which the factory creates when needed.
    pub belongs_to: Option<BelongsToAssociation>,
    /// The source text of the field's default value in the factory.
    pub default: Option<String>,
}

/// `<field>,` for fields the factory holds, nothing for dependant ones.
pub open spec fn factory_field_text(f: FactoryDeriveField) -> Seq<char> {
    if f.dependant is Some {
        Seq::empty()
    } else {
        f.ident@ + " ,"@
    }
}

/// `let <field>: <ty> = <expr>;` for dependant fields, nothing for others.
pub open spec fn reassign_text(f: FactoryDeriveField) -> Seq<char> {
    match f.dependant {
        Some(expr) => "let "@ + f.ident@ + " : "@ + f.ty@ + " = "@ + expr@ + " ;"@,
        None => Seq::empty(),
    }
}

pub open spec fn factory_field_piece() -> spec_fn(FactoryDeriveField) -> Seq<char> {
    |f: FactoryDeriveField| factory_field_text(f)
}

pub open spec fn attribute_field_piece() -> spec_fn(FactoryDeriveField) -> Seq<char> {
    |f: FactoryDeriveField| f.ident@ + " ,"@
}

pub open spec fn reassign_piece() -> spec_fn(FactoryDeriveField) -> Seq<char> {
    |f: FactoryDeriveField| reassign_text(f)
}

impl BelongsToAssociation {
    pub fn duplicate(&self) -> (out: Self)
        ensures
            out == *self,
    {
        BelongsToAssociation { factory: self.factory.clone() }
    }
}

impl FactoryDeriveField {
    /// Every field of the attributes struct is an attribute of the factory.
    pub fn is_factory_attribute(&self) -> (r: bool)
        ensures
            r,
    {
        true
    }

    /// Mixin fields get no setter.
    pub fn should_derive_setter(&self) -> (r: bool)
        ensures
            r == !self.mixin,
    {
        !self.mixin
    }

    /// The field as it is taken out of the factory, unless it is dependant.
    pub fn as_factory_field(&self) -> (out: Option<String>)
        ensures
            out is None <==> self.dependant is Some,
            out matches Some(text) ==> text@ == factory_field_text(*self),
    {
        if self.dependant.is_some() {
            None
        } else {
            let mut out = self.ident.clone();
            out.append(" ,");
            Some(out)
        }
    }

    fn reassign(&self) -> (out: String)
        ensures
            out@ == reassign_text(*self),
    {
        let mut out = String::new();
        match &self.dependant {
            Some(expr) => {
                out.append("let ");
                out.append(self.ident.as_str());
                out.append(" : ");
                out.append(self.ty.as_str());
                out.append(" = ");
                out.append(expr.as_str());
                out.append(" ;");
            },
            None => {},
        }
        assert(out@ =~= reassign_text(*self));
        out
    }
}

/// Which text to write for each field.
enum FieldText {
    FactoryField,
    AttributeField,
    Reassign,
}

spec fn field_text_piece(kind: FieldText) -> spec_fn(FactoryDeriveField) -> Seq<char> {
    match kind {
        FieldText::FactoryField => factory_field_piece(),
        FieldText::AttributeField => attribute_field_piece(),
        FieldText::Reassign => reassign_piece(),
    }
}

fn join_fields(fields: &Vec<FactoryDeriveField>, kind: &FieldText) -> (out: String)
    ensures
        out@ == joined_map(fields@, field_text_piece(*kind)),
{
    let mut out = String::new();
    let mut i: usize = 0;
    while i < fields.len()
        invariant
            i <= fields.len(),
            out@ == joined_map(fields@.take(i as int), field_text_piece(*kind)),
        decreases fields.len() - i,
    {
        proof {
            lemma_joined_map_step(fields@, field_text_piece(*kind), i as int);
        }
        let field = &fields[i];
        let piece = match kind {
            FieldText::FactoryField => match field.as_factory_field() {
                Some(text) => text,
                None => String::new(),
            },
            FieldText::AttributeField => {
                let mut text = field.ident.clone();
                text.append(" ,");
                text
            },
            FieldText::Reassign => field.reassign(),
        };
        push_stream(&mut out, piece.as_str());
        i = i + 1;
    }
    assert(fields@.take(fields.len() as int) =~= fields@);
    out
}

/// The fields taken out of the factory: all but the dependant ones.
pub fn destructure_factory_fields(fields: &Vec<FactoryDeriveField>) -> (out: String)
    ensures
        out@ == joined_map(fields@, factory_field_piece()),
{
    join_fields(fields, &FieldText::FactoryField)
}

/// The fields of the attributes struct, all of them.
pub fn destructure_attributes_fields(fields: &Vec<FactoryDeriveField>) -> (out: String)
    ensures
        out@ == joined_map(fields@, attribute_field_piece()),
{
    join_fields(fields, &FieldText::AttributeField)
}

/// The statements that compute the dependant fields, in declaration order.
pub fn reassign_dependant_attributes(fields: &Vec<FactoryDeriveField>) -> (out: String)
    ensures
        out@ == joined_map(fields@, reassign_piece()),
{
    join_fields(fields, &FieldText::Reassign)
}

} // verus!
