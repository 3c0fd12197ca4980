//! Generation of `FactoryBundle` implementations: each field of the bundle is
//! created by a default factory, customised by the setters the field lists.
use vstd::prelude::*;
use crate::codegen::text::{brace, joined_map, lemma_joined_map_step, push_brace, push_space_if_any, push_stream, trailing};
use crate::codegen::tokens::{accepted_by_proc_macro2, tokens_of, DeriveError};

verus! {

/// One customisation of a bundle field's factory: a setter called with an expression.
pub struct BundleAttribute {
    /// The setter's name.
    pub method: String,
    /// The source text of the argument.
    pub expr: String,
}

/// A named field of the bundle struct.
pub struct BundleDeriveField {
    /// The field's name.
    pub ident: String,
    /// The source text of the field's type.
    pub ty: String,
    /// The source text of the path of the factory that creates the field.
    pub factory: String,
    /// The setters applied to the default factory, in the order given.
    pub attributes: Vec<BundleAttribute>,
}

/// A bundle struct with named fields.
pub struct BundleDeriveInput {
    /// The struct's name.
    pub ident: String,
    /// Its fields, in declaration order.
    pub fields: Vec<BundleDeriveField>,
}

/// The setters a field lists name distinct methods: each setter is given
/// once, as in the `attributes(..)` map they are read from.
pub open spec fn setters_are_distinct(f: BundleDeriveField) -> bool {
    forall|i: int, j: int|
        0 <= i < j < f.attributes@.len() ==> #[trigger] f.attributes@[i].method@ != #[trigger] f.attributes@[j].method@
}

/// Every field of the bundle lists distinct setters.
pub open spec fn fields_are_well_formed(fields: Seq<BundleDeriveField>) -> bool {
    forall|k: int| 0 <= k < fields.len() ==> #[trigger] setters_are_distinct(fields[k])
}

/// `<factory>: ::fabriko::Factory<CTX, Output = <ty>>,`
pub open spec fn where_clause_text(f: BundleDeriveField) -> Seq<char> {
    f.factory@ + " : :: fabriko :: Factory < CTX , Output = "@ + f.ty@ + " > ,"@
}

/// `.<method>(<expr>)`
pub open spec fn customization_text(a: BundleAttribute) -> Seq<char> {
    ". "@ + a.method@ + " ("@ + a.expr@ + ")"@
}

pub open spec fn customization_piece() -> spec_fn(BundleAttribute) -> Seq<char> {
    |a: BundleAttribute| customization_text(a)
}

/// `let <field> = <factory>::default() <setters> .create(cx)?;`
pub open spec fn instantiation_text(f: BundleDeriveField) -> Seq<char> {
    "let "@ + f.ident@ + " = "@ + f.factory@ + " :: default () "@
        + trailing(joined_map(f.attributes@, customization_piece())) + ". create (cx) ? ;"@
}

pub open spec fn where_piece() -> spec_fn(BundleDeriveField) -> Seq<char> {
    |f: BundleDeriveField| where_clause_text(f)
}

pub open spec fn instantiation_piece() -> spec_fn(BundleDeriveField) -> Seq<char> {
    |f: BundleDeriveField| instantiation_text(f)
}

pub open spec fn field_name_piece() -> spec_fn(BundleDeriveField) -> Seq<char> {
    |f: BundleDeriveField| f.ident@ + " ,"@
}

/// The bundle struct built from its fields, by shorthand field syntax.
pub open spec fn bundle_struct_text(ident: Seq<char>, fields: Seq<BundleDeriveField>) -> Seq<char> {
    ident + " "@ + brace(joined_map(fields, field_name_piece()))
}

/// The `FactoryBundle<CTX>` implementation: every field's factory must create
/// the field's type; the fields are created in declaration order, and the
/// first error stops the creation.
pub open spec fn bundle_impl_text(input: BundleDeriveInput) -> Seq<char> {
    "impl < CTX : :: fabriko :: FactoryContext > :: fabriko :: FactoryBundle < CTX > for "@ + input.ident@
        + " where "@ + trailing(joined_map(input.fields@, where_piece()))
        + "{ fn create_bundle (cx : & mut CTX) -> Result < Self , CTX :: Error > { "@
        + trailing(joined_map(input.fields@, instantiation_piece())) + "Ok ("@
        + bundle_struct_text(input.ident@, input.fields@) + ") } }"@
}

impl BundleDeriveField {
    pub fn where_clause(&self) -> (out: String)
        ensures
            out@ == where_clause_text(*self),
    {
        let mut out = self.factory.clone();
        out.append(" : :: fabriko :: Factory < CTX , Output = ");
        out.append(self.ty.as_str());
        out.append(" > ,");
        assert(out@ =~= where_clause_text(*self));
        out
    }

    fn instantiation(&self) -> (out: String)
        ensures
            out@ == instantiation_text(*self),
    {
        let mut customizations = String::new();
        let mut i: usize = 0;
        while i < self.attributes.len()
            invariant
                i <= self.attributes.len(),
                customizations@ == joined_map(self.attributes@.take(i as int), customization_piece()),
            decreases self.attributes.len() - i,
        {
            proof {
                lemma_joined_map_step(self.attributes@, customization_piece(), i as int);
            }
            let attribute = &self.attributes[i];
            let mut piece = String::new();
            piece.append(". ");
            piece.append(attribute.method.as_str());
            piece.append(" (");
            piece.append(attribute.expr.as_str());
            piece.append(")");
            assert(piece@ =~= customization_text(*attribute));
            push_stream(&mut customizations, piece.as_str());
            i = i + 1;
        }
        assert(self.attributes@.take(self.attributes.len() as int) =~= self.attributes@);
        push_space_if_any(&mut customizations);
        let mut out = String::new();
        out.append("let ");
        out.append(self.ident.as_str());
        out.append(" = ");
        out.append(self.factory.as_str());
        out.append(" :: default () ");
        out.append(customizations.as_str());
        out.append(". create (cx) ? ;");
        assert(out@ =~= instantiation_text(*self));
        out
    }
}

/// Which text to write for each field.
enum FieldText {
    WhereClause,
    Instantiation,
    Name,
}

spec fn field_text_piece(kind: FieldText) -> spec_fn(BundleDeriveField) -> Seq<char> {
    match kind {
        FieldText::WhereClause => where_piece(),
        FieldText::Instantiation => instantiation_piece(),
        FieldText::Name => field_name_piece(),
    }
}

fn join_fields(fields: &Vec<BundleDeriveField>, kind: &FieldText) -> (out: String)
    ensures
        out@ == joined_map(fields@, field_text_piece(*kind)),
{
    let mut out = String::new();
    let mut i: usize = 0;
    while i < fields.len()
        invariant
            i <= fields.len(),
            out@ == joined_map(fields@.take(i as int), field_text_piece(*kind)),
        decreases fields.len() - i,
    {
        proof {
            lemma_joined_map_step(fields@, field_text_piece(*kind), i as int);
        }
        let piece = match kind {
            FieldText::WhereClause => fields[i].where_clause(),
            FieldText::Instantiation => fields[i].instantiation(),
            FieldText::Name => {
                let mut name = fields[i].ident.clone();
                name.append(" ,");
                name
            },
        };
        push_stream(&mut out, piece.as_str());
        i = i + 1;
    }
    assert(fields@.take(fields.len() as int) =~= fields@);
    out
}

/// The bundle struct built from its fields, by shorthand field syntax.
pub fn build_bundle_struct(ident: &String, fields: &Vec<BundleDeriveField>) -> (out: String)
    ensures
        out@ == bundle_struct_text(ident@, fields@),
{
    let names = join_fields(fields, &FieldText::Name);
    let mut out = ident.clone();
    out.append(" ");
    push_brace(&mut out, names.as_str());
    assert(out@ =~= bundle_struct_text(ident@, fields@));
    out
}

/// The statements that create every field of the bundle, in declaration order.
pub fn instantiate_bundle_fields(fields: &Vec<BundleDeriveField>) -> (out: String)
    requires
        fields_are_well_formed(fields@),
    ensures
        out@ == joined_map(fields@, instantiation_piece()),
{
    join_fields(fields, &FieldText::Instantiation)
}

impl BundleDeriveInput {
    /// Source text of the bundle's `FactoryBundle` implementation.
    pub fn derive_factory_bundle_implementation(&self) -> (out: String)
        requires
            fields_are_well_formed(self.fields@),
        ensures
            out@ == bundle_impl_text(*self),
    {
        let mut where_clause = join_fields(&self.fields, &FieldText::WhereClause);
        push_space_if_any(&mut where_clause);
        let mut instantiated = instantiate_bundle_fields(&self.fields);
        push_space_if_any(&mut instantiated);
        let returned = build_bundle_struct(&self.ident, &self.fields);
        let mut out = String::new();
        out.append("impl < CTX : :: fabriko :: FactoryContext > :: fabriko :: FactoryBundle < CTX > for ");
        out.append(self.ident.as_str());
        out.append(" where ");
        out.append(where_clause.as_str());
        out.append("{ fn create_bundle (cx : & mut CTX) -> Result < Self , CTX :: Error > { ");
        out.append(instantiated.as_str());
        out.append("Ok (");
        out.append(returned.as_str());
        out.append(") } }");
        assert(out@ =~= bundle_impl_text(*self));
        out
    }
}

/// The bundle's `FactoryBundle` implementation as tokens: the text
/// `derive_factory_bundle_implementation` generates, lexed by `proc_macro2`;
/// a success means `proc_macro2`'s own lexer
/// accepts that text, and an error means the text was not accepted.
pub fn do_derive_bundle(input: &BundleDeriveInput) -> (r: Result<proc_macro2::TokenStream, DeriveError>)
    requires
        fields_are_well_formed(input.fields@),
    ensures
        r is Ok ==> accepted_by_proc_macro2(bundle_impl_text(*input)),
        r matches Err(e) ==> e == DeriveError::InvalidTokens,
{
    let code = input.derive_factory_bundle_implementation();
    tokens_of(&code)
}

} // verus!
