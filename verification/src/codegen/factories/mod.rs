//! Generation of a factory from the attributes struct of a resource
//! (`#[derive(Factory)]`): the factory struct and its default, its `Factory`
//! implementation, its mixins, setters, links and related resources.
use vstd::prelude::*;
use crate::codegen::text::{brace, joined_map, lemma_joined_map_step, push_brace, push_space_if_any, push_stream, sep, trailing};
use crate::codegen::tokens::{accepted_by_proc_macro2, tokens_of, DeriveError};

pub mod associations;
pub mod field;
pub mod mixins;
pub mod setters;

use crate::codegen::factories::associations::belongs_to::{
    belongs_to_field_text, derive_belonging_to_link_implementations, link_piece, resolve_belongs_to_assocations_and_add_conditions,
    resolve_conditions, resolve_piece, texts,
};
use crate::codegen::factories::associations::has_many::HasManyAssociation;
use crate::codegen::factories::associations::has_one::HasOneAssociation;
use crate::codegen::factories::associations::{derive_associations, related_resources_text, structure_fields};
use crate::codegen::factories::field::{
    attribute_field_piece, destructure_attributes_fields, destructure_factory_fields, factory_field_piece,
    reassign_dependant_attributes, reassign_piece, FactoryDeriveField,
};
use crate::codegen::factories::mixins::{derive_mixin_implementations, mixin_piece};
use crate::codegen::factories::setters::{derive_setters_implementations, setters_impl_text};

verus! {

/// An attributes struct with what `#[factory(..)]` says of it.
pub struct FactoryDeriveInput {
    /// The attributes struct's name.
    pub ident: String,
    /// Its fields, in declaration order.
    pub fields: Vec<FactoryDeriveField>,
    /// The name of the factory to generate.
    pub factory_ident: String,
    /// The name of the struct that holds the related resources, if any.
    pub associations_ident: Option<String>,
    /// The has-many associations, in the order given.
    pub has_many: Vec<HasManyAssociation>,
    /// The has-one associations, in the order given.
    pub has_one: Vec<HasOneAssociation>,
}

/// The factory's field for an attribute: a `BelongsTo` for fields that belong
/// to a resource, the attribute's own type otherwise.
pub open spec fn definition_text(f: FactoryDeriveField) -> Seq<char> {
    match f.belongs_to {
        Some(association) => belongs_to_field_text(association, f.ident@, f.ty@),
        None => f.ident@ + " : "@ + f.ty@ + " ,"@,
    }
}

/// The factory's default for an attribute: the given expression, else `Default::default()`.
pub open spec fn default_text(f: FactoryDeriveField) -> Seq<char> {
    match f.default {
        Some(expr) => f.ident@ + " : "@ + expr@ + " ,"@,
        None => f.ident@ + " : Default :: default () ,"@,
    }
}

pub open spec fn definition_piece() -> spec_fn(FactoryDeriveField) -> Seq<char> {
    |f: FactoryDeriveField| definition_text(f)
}

pub open spec fn default_piece() -> spec_fn(FactoryDeriveField) -> Seq<char> {
    |f: FactoryDeriveField| default_text(f)
}

pub open spec fn text_piece() -> spec_fn(Seq<char>) -> Seq<char> {
    |t: Seq<char>| t
}

/// The factory struct and its `Default` implementation.
pub open spec fn factory_definition_text(factory_ident: Seq<char>, fields: Seq<FactoryDeriveField>) -> Seq<char> {
    "pub struct "@ + factory_ident + " "@ + brace(joined_map(fields, definition_piece())) + " impl Default for "@
        + factory_ident + " { fn default () -> Self { "@ + factory_ident + " "@ + brace(
        joined_map(fields, default_piece()),
    ) + " } }"@
}

/// The bound that the attributes struct builds a resource.
pub open spec fn build_resource_condition_text(attributes_ident: Seq<char>) -> Seq<char> {
    attributes_ident + " : :: fabriko :: BuildResource < CTX > ,"@
}

/// The bounds of the factory's `Factory` implementation: one per field that
/// belongs to a resource, then that the attributes struct builds a resource.
pub open spec fn factory_conditions(attributes_ident: Seq<char>, fields: Seq<FactoryDeriveField>) -> Seq<Seq<char>> {
    resolve_conditions(fields).push(build_resource_condition_text(attributes_ident))
}

/// The factory's `Factory` implementation: it takes its fields apart, resolves
/// the resources its fields belong to, computes the dependant fields, and
/// builds the resource from the attributes struct.
pub open spec fn factory_implementation_text(
    attributes_ident: Seq<char>,
    factory_ident: Seq<char>,
    fields: Seq<FactoryDeriveField>,
) -> Seq<char> {
    "impl < CTX : :: fabriko :: FactoryContext > :: fabriko :: Factory < CTX > for "@ + factory_ident + " where "@
        + joined_map(factory_conditions(attributes_ident, fields), text_piece()) + " { type Output = < "@
        + attributes_ident
        + " as :: fabriko :: BuildResource < CTX >> :: Output ; fn create (self , ctx : & mut CTX) -> Result < Self :: Output , CTX :: Error > { let "@
        + factory_ident + " "@ + brace(trailing(joined_map(fields, factory_field_piece())) + ".."@)
        + " = self ; use :: fabriko :: ResolveDependency ; "@ + trailing(joined_map(fields, resolve_piece()))
        + trailing(joined_map(fields, reassign_piece())) + "let __resource = "@ + attributes_ident + " "@ + brace(
        joined_map(fields, attribute_field_piece()),
    ) + " . build_resource (ctx) ? ; Ok (__resource) } }"@
}

/// Everything generated for the related resources, if the factory has them.
pub open spec fn associations_text(input: FactoryDeriveInput) -> Seq<char> {
    match input.associations_ident {
        Some(ident) => related_resources_text(ident@, structure_fields(input.has_many@, input.has_one@), input.factory_ident@),
        None => Seq::empty(),
    }
}

/// Everything the factory derive generates, in order: the factory and its
/// default, its `Factory` implementation, its mixin implementations, its
/// setters, its links, and its related resources.
pub open spec fn factory_text(input: FactoryDeriveInput) -> Seq<char> {
    let fi = input.factory_ident@;
    let fields = input.fields@;
    sep(
        sep(
            sep(
                sep(
                    sep(factory_definition_text(fi, fields), factory_implementation_text(input.ident@, fi, fields)),
                    joined_map(fields, mixin_piece(fi)),
                ),
                setters_impl_text(fi, fields),
            ),
            joined_map(fields, link_piece(fi)),
        ),
        associations_text(input),
    )
}

/// Whether the factory can be generated: with related resources, there are at
/// most as many associations as letters for their type parameters.
pub open spec fn fits_type_parameters(input: FactoryDeriveInput) -> bool {
    input.associations_ident is Some ==> input.has_many@.len() + input.has_one@.len() <= 26
}

/// Which text to write for each field.
enum FieldText {
    Definition,
    Default,
}

spec fn field_text_piece(kind: FieldText) -> spec_fn(FactoryDeriveField) -> Seq<char> {
    match kind {
        FieldText::Definition => definition_piece(),
        FieldText::Default => default_piece(),
    }
}

fn field_text(f: &FactoryDeriveField, kind: &FieldText) -> (out: String)
    ensures
        out@ == (field_text_piece(*kind))(*f),
{
    match kind {
        FieldText::Definition => match &f.belongs_to {
            Some(association) => association.field_definition(&f.ident, &f.ty),
            None => {
                let mut out = f.ident.clone();
                out.append(" : ");
                out.append(f.ty.as_str());
                out.append(" ,");
                assert(out@ =~= definition_text(*f));
                out
            },
        },
        FieldText::Default => {
            let mut out = f.ident.clone();
            match &f.default {
                Some(expr) => {
                    out.append(" : ");
                    out.append(expr.as_str());
                    out.append(" ,");
                },
                None => {
                    out.append(" : Default :: default () ,");
                },
            }
            assert(out@ =~= default_text(*f));
            out
        },
    }
}

fn join_fields(fields: &Vec<FactoryDeriveField>, kind: &FieldText) -> (out: String)
    ensures
        out@ == joined_map(fields@, field_text_piece(*kind)),
{
    let mut out = String::new();
    let mut i: usize = 0;
    while i < fields.len()
        invariant
            i <= fields.len(),
            out@ == joined_map(fields@.take(i as int), field_text_piece(*kind)),
        decreases fields.len() - i,
    {
        proof {
            lemma_joined_map_step(fields@, field_text_piece(*kind), i as int);
        }
        let piece = field_text(&fields[i], kind);
        push_stream(&mut out, piece.as_str());
        i = i + 1;
    }
    assert(fields@.take(fields.len() as int) =~= fields@);
    out
}

/// The strings one after the other, as token streams.
fn join_strings(strings: &Vec<String>) -> (out: String)
    ensures
        out@ == joined_map(texts(strings@), text_piece()),
{
    let ghost all = texts(strings@);
    let mut out = String::new();
    let mut i: usize = 0;
    while i < strings.len()
        invariant
            i <= strings.len(),
            all == texts(strings@),
            out@ == joined_map(all.take(i as int), text_piece()),
        decreases strings.len() - i,
    {
        proof {
            lemma_joined_map_step(all, text_piece(), i as int);
        }
        push_stream(&mut out, strings[i].as_str());
        i = i + 1;
    }
    assert(all.take(strings.len() as int) =~= all);
    out
}

/// The factory struct and its `Default` implementation.
pub fn derive_factory_definition(factory_ident: &String, fields: &Vec<FactoryDeriveField>) -> (out: String)
    ensures
        out@ == factory_definition_text(factory_ident@, fields@),
{
    let definitions = join_fields(fields, &FieldText::Definition);
    let defaults = join_fields(fields, &FieldText::Default);
    let mut out = String::new();
    out.append("pub struct ");
    out.append(factory_ident.as_str());
    out.append(" ");
    push_brace(&mut out, definitions.as_str());
    out.append(" impl Default for ");
    out.append(factory_ident.as_str());
    out.append(" { fn default () -> Self { ");
    out.append(factory_ident.as_str());
    out.append(" ");
    push_brace(&mut out, defaults.as_str());
    out.append(" } }");
    assert(out@ =~= factory_definition_text(factory_ident@, fields@));
    out
}

/// The factory's `Factory` implementation.
pub fn derive_factory_implementation(
    attributes_ident: &String,
    factory_ident: &String,
    fields: &Vec<FactoryDeriveField>,
) -> (out: String)
    ensures
        out@ == factory_implementation_text(attributes_ident@, factory_ident@, fields@),
{
    let mut impl_block_conditions: Vec<String> = Vec::new();
    let mut destructured_factory_fields = destructure_factory_fields(fields);
    push_space_if_any(&mut destructured_factory_fields);
    destructured_factory_fields.append("..");
    let mut associations_pre_create = resolve_belongs_to_assocations_and_add_conditions(&mut impl_block_conditions, fields);
    push_space_if_any(&mut associations_pre_create);
    let mut reassign = reassign_dependant_attributes(fields);
    push_space_if_any(&mut reassign);
    let destructured_attributes_fields = destructure_attributes_fields(fields);
    let mut build_condition = attributes_ident.clone();
    build_condition.append(" : :: fabriko :: BuildResource < CTX > ,");
    let ghost conditions_before = impl_block_conditions@;
    impl_block_conditions.push(build_condition);
    assert(texts(impl_block_conditions@) =~= texts(conditions_before).push(build_condition@));
    assert(texts(impl_block_conditions@) =~= factory_conditions(attributes_ident@, fields@));
    let where_clause = join_strings(&impl_block_conditions);
    let mut out = String::new();
    out.append("impl < CTX : :: fabriko :: FactoryContext > :: fabriko :: Factory < CTX > for ");
    out.append(factory_ident.as_str());
    out.append(" where ");
    out.append(where_clause.as_str());
    out.append(" { type Output = < ");
    out.append(attributes_ident.as_str());
    out.append(
        " as :: fabriko :: BuildResource < CTX >> :: Output ; fn create (self , ctx : & mut CTX) -> Result < Self :: Output , CTX :: Error > { let ",
    );
    out.append(factory_ident.as_str());
    out.append(" ");
    push_brace(&mut out, destructured_factory_fields.as_str());
    out.append(" = self ; use :: fabriko :: ResolveDependency ; ");
    out.append(associations_pre_create.as_str());
    out.append(reassign.as_str());
    out.append("let __resource = ");
    out.append(attributes_ident.as_str());
    out.append(" ");
    push_brace(&mut out, destructured_attributes_fields.as_str());
    out.append(" . build_resource (ctx) ? ; Ok (__resource) } }");
    assert(out@ =~= factory_implementation_text(attributes_ident@, factory_ident@, fields@));
    out
}

impl FactoryDeriveInput {
    /// Source text of everything the factory derive generates.
    pub fn derive(&self) -> (out: String)
        requires
            fits_type_parameters(*self),
        ensures
            out@ == factory_text(*self),
    {
        let mut out = derive_factory_definition(&self.factory_ident, &self.fields);
        let implementation = derive_factory_implementation(&self.ident, &self.factory_ident, &self.fields);
        push_stream(&mut out, implementation.as_str());
        let mixins = derive_mixin_implementations(&self.factory_ident, &self.fields);
        push_stream(&mut out, mixins.as_str());
        let setters = derive_setters_implementations(&self.factory_ident, &self.fields);
        push_stream(&mut out, setters.as_str());
        let links = derive_belonging_to_link_implementations(&self.factory_ident, &self.fields);
        push_stream(&mut out, links.as_str());
        let associations = match &self.associations_ident {
            Some(associations_ident) => derive_associations(
                &self.has_many,
                &self.has_one,
                associations_ident,
                &self.factory_ident,
            ),
            None => String::new(),
        };
        push_stream(&mut out, associations.as_str());
        out
    }
}

/// The factory as tokens: the text `FactoryDeriveInput::derive` generates,
/// lexed by `proc_macro2`; a success means `proc_macro2`'s own lexer
/// accepts that text, and an error means the text was not accepted.
pub fn do_derive_factory(input: &FactoryDeriveInput) -> (r: Result<proc_macro2::TokenStream, DeriveError>)
    requires
        fits_type_parameters(*input),
    ensures
        r is Ok ==> accepted_by_proc_macro2(factory_text(*input)),
        r matches Err(e) ==> e == DeriveError::InvalidTokens,
{
    let code = input.derive();
    tokens_of(&code)
}

} // verus!
