//! Fields that identify the resource they belong to: the factory holds a
//! `BelongsTo` for them, resolves it before building, and offers setters
//! for an existing identifier or a factory to create one.
use vstd::prelude::*;
use crate::codegen::text::{joined_map, lemma_joined_map_step, push_stream};
use crate::codegen::tokens::{fnv_hash, fnv_hash_of, push_u64_literal, u64_literal};
use crate::codegen::factories::field::FactoryDeriveField;

verus! {

/// `#[factory(belongs_to(factory = ..))]`: the factory of the resource the field identifies.
pub struct BelongsToAssociation {
    /// The source text of the factory's path.
    pub factory: String,
}

/// The `BelongingToLink` implementation that names the link of a field by the
/// hash of its name and sets the field through the field's setter of an
/// existing identifier.
pub open spec fn belonging_to_link_text(factory_ident: Seq<char>, field_ident: Seq<char>, field_ty: Seq<char>) -> Seq<char> {
    "impl :: fabriko :: BelongingToLink < { "@ + u64_literal(fnv_hash(field_ident)) + " } > for "@ + factory_ident
        + " { type ID = "@ + field_ty + " ; fn setter (factory : Self , id : Self :: ID) -> Self { "@
        + factory_ident + " :: "@ + field_ident + " (factory , id) } }"@
}

/// `<field>: ::fabriko::BelongsTo<<factory>, <ty>>,`
pub open spec fn belongs_to_field_text(association: BelongsToAssociation, ident: Seq<char>, ty: Seq<char>) -> Seq<char> {
    ident + " : :: fabriko :: BelongsTo < "@ + association.factory@ + " , "@ + ty + " > ,"@
}

/// The bound that lets the field's `BelongsTo` resolve to the field's type.
pub open spec fn resolve_condition_text(association: BelongsToAssociation, ty: Seq<char>) -> Seq<char> {
    ":: fabriko :: BelongsTo < "@ + association.factory@ + " , "@ + ty
        + " > : :: fabriko :: ResolveDependency < CTX , Output = "@ + ty + " > ,"@
}

/// `let <field> = <field>.resolve_dependency(ctx)?;`
pub open spec fn resolve_statement_text(ident: Seq<char>) -> Seq<char> {
    "let "@ + ident + " = "@ + ident + " . resolve_dependency (ctx) ? ;"@
}

/// The bounds for the fields that belong to a resource, in declaration order.
pub open spec fn resolve_conditions(fields: Seq<FactoryDeriveField>) -> Seq<Seq<char>>
    decreases fields.len(),
{
    if fields.len() == 0 {
        Seq::empty()
    } else {
        let f = fields.last();
        match f.belongs_to {
            Some(association) => resolve_conditions(fields.drop_last()).push(
                resolve_condition_text(association, f.ty@),
            ),
            None => resolve_conditions(fields.drop_last()),
        }
    }
}

/// The text of each string, in order.
pub open spec fn texts(strings: Seq<String>) -> Seq<Seq<char>> {
    strings.map_values(|s: String| s@)
}

pub open spec fn resolve_piece() -> spec_fn(FactoryDeriveField) -> Seq<char> {
    |f: FactoryDeriveField|
        if f.belongs_to is Some {
            resolve_statement_text(f.ident@)
        } else {
            Seq::empty()
        }
}

/// The two setters of a field that belongs to a resource: one that makes the
/// factory create the resource, one that sets the identifier of an existing one.
pub open spec fn belonging_to_setters_text(association: BelongsToAssociation, ident: Seq<char>) -> Seq<char> {
    let factory = association.factory@;
    "pub fn belonging_to_"@ + ident + " < F : FnOnce ("@ + factory + ") -> "@ + factory
        + " > (mut self , f : F) -> Self { self . "@ + ident
        + " = :: fabriko :: BelongsTo :: Create (f (Default :: default ())) ; self } pub fn "@ + ident
        + " (mut self , id : < Self as :: fabriko :: BelongingToLink < { "@ + u64_literal(fnv_hash(ident))
        + " } >> :: ID) -> Self { self . "@ + ident + " = :: fabriko :: BelongsTo :: Created (id) ; self }"@
}

pub open spec fn link_piece(factory_ident: Seq<char>) -> spec_fn(FactoryDeriveField) -> Seq<char> {
    |f: FactoryDeriveField|
        if f.belongs_to is Some {
            belonging_to_link_text(factory_ident, f.ident@, f.ty@)
        } else {
            Seq::empty()
        }
}

impl BelongsToAssociation {
    pub fn derive_belonging_to_link(&self, factory_ident: &String, field_ident: &String, field_ty: &String) -> (out: String)
        ensures
            out@ == belonging_to_link_text(factory_ident@, field_ident@, field_ty@),
    {
        let hash = fnv_hash_of(field_ident.as_str());
        let mut out = String::new();
        out.append("impl :: fabriko :: BelongingToLink < { ");
        push_u64_literal(&mut out, hash);
        out.append(" } > for ");
        out.append(factory_ident.as_str());
        out.append(" { type ID = ");
        out.append(field_ty.as_str());
        out.append(" ; fn setter (factory : Self , id : Self :: ID) -> Self { ");
        out.append(factory_ident.as_str());
        out.append(" :: ");
        out.append(field_ident.as_str());
        out.append(" (factory , id) } }");
        assert(out@ =~= belonging_to_link_text(factory_ident@, field_ident@, field_ty@));
        out
    }

    pub fn field_definition(&self, ident: &String, ty: &String) -> (out: String)
        ensures
            out@ == belongs_to_field_text(*self, ident@, ty@),
    {
        let mut out = ident.clone();
        out.append(" : :: fabriko :: BelongsTo < ");
        out.append(self.factory.as_str());
        out.append(" , ");
        out.append(ty.as_str());
        out.append(" > ,");
        assert(out@ =~= belongs_to_field_text(*self, ident@, ty@));
        out
    }

    fn resolve_condition(&self, ty: &String) -> (out: String)
        ensures
            out@ == resolve_condition_text(*self, ty@),
    {
        let mut out = String::new();
        out.append(":: fabriko :: BelongsTo < ");
        out.append(self.factory.as_str());
        out.append(" , ");
        out.append(ty.as_str());
        out.append(" > : :: fabriko :: ResolveDependency < CTX , Output = ");
        out.append(ty.as_str());
        out.append(" > ,");
        assert(out@ =~= resolve_condition_text(*self, ty@));
        out
    }
}

/// Appends to `impl_block_conditions` the bound of every field that belongs to
/// a resource, and returns the statements that resolve those fields, both in
/// declaration order.
pub fn resolve_belongs_to_assocations_and_add_conditions(
    impl_block_conditions: &mut Vec<String>,
    fields: &Vec<FactoryDeriveField>,
) -> (out: String)
    ensures
        texts(final(impl_block_conditions)@) == texts(old(impl_block_conditions)@) + resolve_conditions(fields@),
        out@ == joined_map(fields@, resolve_piece()),
{
    let mut out = String::new();
    let mut i: usize = 0;
    while i < fields.len()
        invariant
            i <= fields.len(),
            texts(impl_block_conditions@) =~= texts(old(impl_block_conditions)@) + resolve_conditions(fields@.take(i as int)),
            out@ == joined_map(fields@.take(i as int), resolve_piece()),
        decreases fields.len() - i,
    {
        proof {
            lemma_joined_map_step(fields@, resolve_piece(), i as int);
            assert(fields@.take(i + 1).drop_last() =~= fields@.take(i as int));
        }
        let field = &fields[i];
        match &field.belongs_to {
            Some(association) => {
                let condition = association.resolve_condition(&field.ty);
                let ghost before = impl_block_conditions@;
                impl_block_conditions.push(condition);
                assert(texts(impl_block_conditions@) =~= texts(before).push(condition@));
                let mut statement = String::new();
                statement.append("let ");
                statement.append(field.ident.as_str());
                statement.append(" = ");
                statement.append(field.ident.as_str());
                statement.append(" . resolve_dependency (ctx) ? ;");
                assert(statement@ =~= resolve_statement_text(field.ident@));
                push_stream(&mut out, statement.as_str());
            },
            None => {
                push_stream(&mut out, "");
                proof {
                    reveal_strlit("");
                }
            },
        }
        i = i + 1;
    }
    assert(fields@.take(fields.len() as int) =~= fields@);
    out
}

/// The setters of a field that belongs to a resource.
pub fn declare_fields_belonging_to(belongs_to_association: &BelongsToAssociation, field_ident: &String) -> (out: String)
    ensures
        out@ == belonging_to_setters_text(*belongs_to_association, field_ident@),
{
    let hash = fnv_hash_of(field_ident.as_str());
    let factory = &belongs_to_association.factory;
    let mut out = String::new();
    out.append("pub fn belonging_to_");
    out.append(field_ident.as_str());
    out.append(" < F : FnOnce (");
    out.append(factory.as_str());
    out.append(") -> ");
    out.append(factory.as_str());
    out.append(" > (mut self , f : F) -> Self { self . ");
    out.append(field_ident.as_str());
    out.append(" = :: fabriko :: BelongsTo :: Create (f (Default :: default ())) ; self } pub fn ");
    out.append(field_ident.as_str());
    out.append(" (mut self , id : < Self as :: fabriko :: BelongingToLink < { ");
    push_u64_literal(&mut out, hash);
    out.append(" } >> :: ID) -> Self { self . ");
    out.append(field_ident.as_str());
    out.append(" = :: fabriko :: BelongsTo :: Created (id) ; self }");
    assert(out@ =~= belonging_to_setters_text(*belongs_to_association, field_ident@));
    out
}

/// The `BelongingToLink` implementations of the fields that belong to a resource.
pub fn derive_belonging_to_link_implementations(factory_ident: &String, fields: &Vec<FactoryDeriveField>) -> (out: String)
    ensures
        out@ == joined_map(fields@, link_piece(factory_ident@)),
{
    let mut out = String::new();
    let mut i: usize = 0;
    while i < fields.len()
        invariant
            i <= fields.len(),
            out@ == joined_map(fields@.take(i as int), link_piece(factory_ident@)),
        decreases fields.len() - i,
    {
        proof {
            lemma_joined_map_step(fields@, link_piece(factory_ident@), i as int);
        }
        let field = &fields[i];
        let piece = match &field.belongs_to {
            Some(association) => association.derive_belonging_to_link(factory_ident, &field.ident, &field.ty),
            None => String::new(),
        };
        push_stream(&mut out, piece.as_str());
        i = i + 1;
    }
    assert(fields@.take(fields.len() as int) =~= fields@);
    out
}

/// Whether a field identifies a resource it belongs to.
pub open spec fn belongs_to_a_resource() -> spec_fn(FactoryDeriveField) -> bool {
    |f: FactoryDeriveField| f.belongs_to is Some
}

/// The `ResolveDependency` bound of a field that belongs to a resource.
pub open spec fn resolve_condition_of() -> spec_fn(FactoryDeriveField) -> Seq<char> {
    |f: FactoryDeriveField| resolve_condition_text(f.belongs_to->Some_0, f.ty@)
}

/// The factory's `Factory` implementation gets one `ResolveDependency` bound
/// for every field that belongs to a resource, and none for other fields:
/// the bounds come in declaration order, each for its field's factory and type.
pub proof fn lemma_one_resolve_condition_per_belonging_field(fields: Seq<FactoryDeriveField>)
    ensures
        resolve_conditions(fields) == fields.filter(belongs_to_a_resource()).map_values(resolve_condition_of()),
        resolve_conditions(fields).len() == fields.filter(belongs_to_a_resource()).len(),
    decreases fields.len(),
{
    reveal(Seq::filter);
    if fields.len() > 0 {
        let init = fields.drop_last();
        lemma_one_resolve_condition_per_belonging_field(init);
        let kept = init.filter(belongs_to_a_resource());
        if (belongs_to_a_resource())(fields.last()) {
            assert(fields.filter(belongs_to_a_resource()) == kept.push(fields.last()));
            assert(kept.push(fields.last()).map_values(resolve_condition_of()) =~= kept.map_values(
                resolve_condition_of(),
            ).push((resolve_condition_of())(fields.last())));
        } else {
            assert(fields.filter(belongs_to_a_resource()) == kept);
        }
    }
}

} // verus!
