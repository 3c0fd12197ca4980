//! Generation of `WithIdentifier` implementations for structs whose fields
//! marked `#[identifier]` make up their identifier.
use vstd::prelude::*;
use crate::codegen::text::{
    joined_map, lemma_joined_map_of_empty_pieces, lemma_joined_map_of_filtered, lemma_joined_map_of_one_piece,
    lemma_joined_map_step, paren,
    push_stream,
};
use crate::codegen::tokens::{accepted_by_proc_macro2, tokens_of, DeriveError};

verus! {

/// A named field of the struct the implementation is generated for.
pub struct WithIdentifierField {
    /// The field's name.
    pub ident: String,
    /// The source text of the field's type.
    pub ty: String,
    /// Whether the field carries an `#[identifier]` attribute.
    pub is_identifier: bool,
}

/// A struct with named fields for which `WithIdentifier` is generated.
pub struct WithIdentifierDeriveInput {
    /// The struct's name.
    pub ident: String,
    /// Its fields, in declaration order.
    pub fields: Vec<WithIdentifierField>,
}

/// Number of fields marked as part of the identifier.
pub open spec fn count_identifiers(fields: Seq<WithIdentifierField>) -> nat
    decreases fields.len(),
{
    if fields.len() == 0 {
        0
    } else {
        count_identifiers(fields.drop_last()) + if fields.last().is_identifier { 1nat } else { 0nat }
    }
}

/// The type of an identifier field alone; nothing for other fields.
pub open spec fn id_type_piece() -> spec_fn(WithIdentifierField) -> Seq<char> {
    |f: WithIdentifierField| if f.is_identifier { f.ty@ } else { Seq::empty() }
}

/// The type of an identifier field followed by a comma; nothing for other fields.
pub open spec fn id_type_item() -> spec_fn(WithIdentifierField) -> Seq<char> {
    |f: WithIdentifierField| if f.is_identifier { f.ty@ + " ,"@ } else { Seq::empty() }
}

/// Access to an identifier field of `self`; nothing for other fields.
pub open spec fn id_access_piece() -> spec_fn(WithIdentifierField) -> Seq<char> {
    |f: WithIdentifierField| if f.is_identifier { "self . "@ + f.ident@ } else { Seq::empty() }
}

/// Access to an identifier field of `self` followed by a comma; nothing for other fields.
pub open spec fn id_access_item() -> spec_fn(WithIdentifierField) -> Seq<char> {
    |f: WithIdentifierField| if f.is_identifier { "self . "@ + f.ident@ + " ,"@ } else { Seq::empty() }
}

/// The identifier type: the single identifier field's type, or else the tuple
/// of the identifier fields' types in declaration order.
pub open spec fn identifier_type_text(fields: Seq<WithIdentifierField>) -> Seq<char> {
    if count_identifiers(fields) == 1 {
        joined_map(fields, id_type_piece())
    } else {
        paren(joined_map(fields, id_type_item()))
    }
}

/// The identifier value: the single identifier field, or else the tuple of the
/// identifier fields in declaration order.
pub open spec fn identifier_value_text(fields: Seq<WithIdentifierField>) -> Seq<char> {
    if count_identifiers(fields) == 1 {
        joined_map(fields, id_access_piece())
    } else {
        paren(joined_map(fields, id_access_item()))
    }
}

/// The generated `impl ::fabriko::WithIdentifier for <ident>`.
pub open spec fn with_identifier_impl_text(input: WithIdentifierDeriveInput) -> Seq<char> {
    "impl :: fabriko :: WithIdentifier for "@ + input.ident@ + " { type ID = "@
        + identifier_type_text(input.fields@) + " ; fn extract_id (& self) -> Self :: ID { "@
        + identifier_value_text(input.fields@) + " } }"@
}

fn count_identifier_fields(fields: &Vec<WithIdentifierField>) -> (n: usize)
    ensures
        n == count_identifiers(fields@),
{
    let mut n: usize = 0;
    let mut i: usize = 0;
    while i < fields.len()
        invariant
            i <= fields.len(),
            n == count_identifiers(fields@.take(i as int)),
            n <= i,
        decreases fields.len() - i,
    {
        assert(fields@.take(i + 1).drop_last() =~= fields@.take(i as int));
        if fields[i].is_identifier {
            n = n + 1;
        }
        i = i + 1;
    }
    assert(fields@.take(fields.len() as int) =~= fields@);
    n
}

/// Text of the identifier type of a struct with these fields.
pub fn identifier_type(fields: &Vec<WithIdentifierField>) -> (out: String)
    ensures
        out@ == identifier_type_text(fields@),
{
    let single = count_identifier_fields(fields) == 1;
    let mut inner = String::new();
    let mut i: usize = 0;
    while i < fields.len()
        invariant
            i <= fields.len(),
            single ==> inner@ == joined_map(fields@.take(i as int), id_type_piece()),
            !single ==> inner@ == joined_map(fields@.take(i as int), id_type_item()),
        decreases fields.len() - i,
    {
        proof {
            lemma_joined_map_step(fields@, id_type_piece(), i as int);
            lemma_joined_map_step(fields@, id_type_item(), i as int);
        }
        let field = &fields[i];
        if field.is_identifier {
            if single {
                push_stream(&mut inner, field.ty.as_str());
            } else {
                let mut item = field.ty.clone();
                item.append(" ,");
                push_stream(&mut inner, item.as_str());
            }
        } else {
            push_stream(&mut inner, "");
            proof { reveal_strlit(""); }
        }
        i = i + 1;
    }
    assert(fields@.take(fields.len() as int) =~= fields@);
    if single {
        inner
    } else {
        let mut out = String::new();
        out.append("(");
        out.append(inner.as_str());
        out.append(")");
        proof {
            reveal_strlit("(");
            reveal_strlit(")");
        }
        assert(out@ =~= paren(inner@));
        out
    }
}

/// Text of the identifier value extracted from `self` for these fields.
pub fn identifier_value(fields: &Vec<WithIdentifierField>) -> (out: String)
    ensures
        out@ == identifier_value_text(fields@),
{
    let single = count_identifier_fields(fields) == 1;
    let mut inner = String::new();
    let mut i: usize = 0;
    while i < fields.len()
        invariant
            i <= fields.len(),
            single ==> inner@ == joined_map(fields@.take(i as int), id_access_piece()),
            !single ==> inner@ == joined_map(fields@.take(i as int), id_access_item()),
        decreases fields.len() - i,
    {
        proof {
            lemma_joined_map_step(fields@, id_access_piece(), i as int);
            lemma_joined_map_step(fields@, id_access_item(), i as int);
        }
        let field = &fields[i];
        if field.is_identifier {
            let mut item = String::new();
            item.append("self . ");
            item.append(field.ident.as_str());
            if !single {
                item.append(" ,");
            }
            push_stream(&mut inner, item.as_str());
        } else {
            push_stream(&mut inner, "");
            proof { reveal_strlit(""); }
        }
        i = i + 1;
    }
    assert(fields@.take(fields.len() as int) =~= fields@);
    if single {
        inner
    } else {
        let mut out = String::new();
        out.append("(");
        out.append(inner.as_str());
        out.append(")");
        proof {
            reveal_strlit("(");
            reveal_strlit(")");
        }
        assert(out@ =~= paren(inner@));
        out
    }
}

/// Source text of the `WithIdentifier` implementation for `input`.
pub fn with_identifier_impl(input: &WithIdentifierDeriveInput) -> (out: String)
    ensures
        out@ == with_identifier_impl_text(*input),
{
    let mut out = String::new();
    out.append("impl :: fabriko :: WithIdentifier for ");
    out.append(input.ident.as_str());
    out.append(" { type ID = ");
    let typedef = identifier_type(&input.fields);
    out.append(typedef.as_str());
    out.append(" ; fn extract_id (& self) -> Self :: ID { ");
    let value = identifier_value(&input.fields);
    out.append(value.as_str());
    out.append(" } }");
    assert(out@ =~= with_identifier_impl_text(*input));
    out
}

/// The `WithIdentifier` implementation for `input` as tokens: the text
/// `with_identifier_impl` generates, lexed by `proc_macro2`; a success means
/// `proc_macro2`'s own lexer accepts that text, and an error means the text
/// was not accepted.
pub fn do_derive_with_identifier(input: &WithIdentifierDeriveInput) -> (r: Result<proc_macro2::TokenStream, DeriveError>)
    ensures
        r is Ok ==> accepted_by_proc_macro2(with_identifier_impl_text(*input)),
        r matches Err(e) ==> e == DeriveError::InvalidTokens,
{
    let code = with_identifier_impl(input);
    tokens_of(&code)
}

proof fn lemma_no_identifier_counted(fields: Seq<WithIdentifierField>)
    requires
        forall|i: int| 0 <= i < fields.len() ==> !#[trigger] fields[i].is_identifier,
    ensures
        count_identifiers(fields) == 0,
    decreases fields.len(),
{
    if fields.len() > 0 {
        let init = fields.drop_last();
        assert forall|i: int| 0 <= i < init.len() implies !#[trigger] init[i].is_identifier by {
            assert(init[i] == fields[i]);
        }
        lemma_no_identifier_counted(init);
        assert(!fields[fields.len() - 1].is_identifier);
    }
}

proof fn lemma_one_identifier_counted(fields: Seq<WithIdentifierField>, k: int)
    requires
        0 <= k < fields.len(),
        fields[k].is_identifier,
        forall|i: int| 0 <= i < fields.len() && i != k ==> !#[trigger] fields[i].is_identifier,
    ensures
        count_identifiers(fields) == 1,
    decreases fields.len(),
{
    let init = fields.drop_last();
    assert forall|i: int| 0 <= i < init.len() && i != k implies !#[trigger] init[i].is_identifier by {
        assert(init[i] == fields[i]);
    }
    if k == fields.len() - 1 {
        lemma_no_identifier_counted(init);
    } else {
        assert(init[k] == fields[k]);
        lemma_one_identifier_counted(init, k);
        assert(!fields[fields.len() - 1].is_identifier);
    }
}

/// A struct whose only identifier field is `fields[k]` is identified by
/// that field itself, of that field's type, and not by a tuple of one.
pub proof fn lemma_single_identifier_is_not_a_tuple(fields: Seq<WithIdentifierField>, k: int)
    requires
        0 <= k < fields.len(),
        fields[k].is_identifier,
        forall|i: int| 0 <= i < fields.len() && i != k ==> !#[trigger] fields[i].is_identifier,
    ensures
        identifier_type_text(fields) == fields[k].ty@,
        identifier_value_text(fields) == "self . "@ + fields[k].ident@,
{
    lemma_one_identifier_counted(fields, k);
    assert forall|i: int| 0 <= i < fields.len() && i != k implies #[trigger] id_type_piece()(fields[i]).len() == 0 by {
        assert(!fields[i].is_identifier);
    }
    assert forall|i: int| 0 <= i < fields.len() && i != k implies #[trigger] id_access_piece()(fields[i]).len()
        == 0 by {
        assert(!fields[i].is_identifier);
    }
    lemma_joined_map_of_one_piece(fields, id_type_piece(), k);
    lemma_joined_map_of_one_piece(fields, id_access_piece(), k);
}

/// A struct without identifier field is identified by the unit value, of the unit type.
pub proof fn lemma_no_identifier_is_unit(fields: Seq<WithIdentifierField>)
    requires
        forall|i: int| 0 <= i < fields.len() ==> !#[trigger] fields[i].is_identifier,
    ensures
        identifier_type_text(fields) == seq!['(', ')'],
        identifier_value_text(fields) == seq!['(', ')'],
{
    lemma_no_identifier_counted(fields);
    assert forall|i: int| 0 <= i < fields.len() implies #[trigger] id_type_item()(fields[i]).len() == 0 by {
        assert(!fields[i].is_identifier);
    }
    assert forall|i: int| 0 <= i < fields.len() implies #[trigger] id_access_item()(fields[i]).len() == 0 by {
        assert(!fields[i].is_identifier);
    }
    lemma_joined_map_of_empty_pieces(fields, id_type_item());
    lemma_joined_map_of_empty_pieces(fields, id_access_item());
    assert(joined_map(fields, id_type_item()) =~= Seq::<char>::empty());
    assert(joined_map(fields, id_access_item()) =~= Seq::<char>::empty());
}

/// Whether a field is marked `#[identifier]`.
pub open spec fn is_identifier_field() -> spec_fn(WithIdentifierField) -> bool {
    |f: WithIdentifierField| f.is_identifier
}

/// A member of the identifier tuple's type: the field's type and a comma.
pub open spec fn tuple_type_member() -> spec_fn(WithIdentifierField) -> Seq<char> {
    |f: WithIdentifierField| f.ty@ + " ,"@
}

/// A member of the identifier tuple's value: the field read from `self` and a comma.
pub open spec fn tuple_value_member() -> spec_fn(WithIdentifierField) -> Seq<char> {
    |f: WithIdentifierField| "self . "@ + f.ident@ + " ,"@
}

proof fn lemma_count_is_number_of_identifier_fields(fields: Seq<WithIdentifierField>)
    ensures
        count_identifiers(fields) == fields.filter(is_identifier_field()).len(),
    decreases fields.len(),
{
    reveal(Seq::filter);
    if fields.len() > 0 {
        lemma_count_is_number_of_identifier_fields(fields.drop_last());
    }
}

/// Every field marked `#[identifier]` counts once, and no other field does;
/// unless exactly one field is marked, the identifier is the tuple of all the
/// marked fields, in declaration order: its type lists their types and its
/// value reads each of them from `self`.
pub proof fn lemma_identifier_is_the_tuple_of_marked_fields(fields: Seq<WithIdentifierField>)
    ensures
        count_identifiers(fields) == fields.filter(is_identifier_field()).len(),
        fields.filter(is_identifier_field()).len() != 1 ==> identifier_type_text(fields) == paren(
            joined_map(fields.filter(is_identifier_field()), tuple_type_member()),
        ),
        fields.filter(is_identifier_field()).len() != 1 ==> identifier_value_text(fields) == paren(
            joined_map(fields.filter(is_identifier_field()), tuple_value_member()),
        ),
{
    lemma_count_is_number_of_identifier_fields(fields);
    assert forall|f: WithIdentifierField| #[trigger] (is_identifier_field())(f) implies (id_type_item())(f) == (
    tuple_type_member())(f) by {}
    assert forall|f: WithIdentifierField| !#[trigger] (is_identifier_field())(f) implies (id_type_item())(f).len()
        == 0 by {}
    lemma_joined_map_of_filtered(fields, id_type_item(), is_identifier_field(), tuple_type_member());
    assert forall|f: WithIdentifierField| #[trigger] (is_identifier_field())(f) implies (id_access_item())(f) == (
    tuple_value_member())(f) by {}
    assert forall|f: WithIdentifierField| !#[trigger] (is_identifier_field())(f) implies (id_access_item())(f).len()
        == 0 by {}
    lemma_joined_map_of_filtered(fields, id_access_item(), is_identifier_field(), tuple_value_member());
}

} // verus!
