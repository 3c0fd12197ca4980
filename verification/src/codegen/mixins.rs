//! Generation of the setter trait of a mixin: one setter per field, on the
//! mixin itself and on every factory that holds the mixin.
use vstd::prelude::*;
use crate::codegen::text::{brace, joined_map, lemma_joined_map_step, push_brace, push_stream};
use crate::codegen::tokens::{accepted_by_proc_macro2, tokens_of, DeriveError};

verus! {

/// A named field of the mixin struct.
pub struct MixinDeriveField {
    /// The field's name.
    pub ident: String,
    /// The source text of the field's type.
    pub ty: String,
    /// `#[mixin(into)]`: the setters take anything that converts `Into` the field's type.
    pub into: bool,
}

/// A mixin struct with named fields.
pub struct MixinDeriveInput {
    /// The struct's name.
    pub ident: String,
    /// Its fields, in declaration order.
    pub fields: Vec<MixinDeriveField>,
}

/// The head of a setter, with `receiver` as its receiver:
/// `fn <field>(<receiver>, <field>: <ty>) -> Self`, or, for a field marked
/// `into`, `fn <field><V: Into<<ty>>>(<receiver>, <field>: V) -> Self`.
pub open spec fn setter_signature_text(f: MixinDeriveField, receiver: Seq<char>) -> Seq<char> {
    if f.into {
        "fn "@ + f.ident@ + " < V : Into < "@ + f.ty@ + " >> ("@ + receiver + " , "@ + f.ident@ + " : V) -> Self"@
    } else {
        "fn "@ + f.ident@ + " ("@ + receiver + " , "@ + f.ident@ + " : "@ + f.ty@ + ") -> Self"@
    }
}

/// The value a setter assigns: its argument, converted with `into` for a field marked `into`.
pub open spec fn assigned_value_text(f: MixinDeriveField) -> Seq<char> {
    if f.into {
        f.ident@ + " . into ()"@
    } else {
        f.ident@
    }
}

/// The setter's declaration in the trait.
pub open spec fn setter_declaration_text(f: MixinDeriveField) -> Seq<char> {
    setter_signature_text(f, "self"@) + " ;"@
}

/// The setter on the mixin itself: assigns the field and hands the mixin back.
pub open spec fn setter_implementation_text(f: MixinDeriveField) -> Seq<char> {
    setter_signature_text(f, "mut self"@) + " { self . "@ + f.ident@ + " = "@ + assigned_value_text(f) + " ; self }"@
}

/// The setter on a holder of the mixin: sets the field of the mixin it holds.
pub open spec fn setter_generic_text(f: MixinDeriveField) -> Seq<char> {
    setter_signature_text(f, "self"@) + " { self . with_mixin (| __mixin | __mixin . "@ + f.ident@ + " ("@ + f.ident@
        + ")) }"@
}

pub open spec fn declaration_piece() -> spec_fn(MixinDeriveField) -> Seq<char> {
    |f: MixinDeriveField| setter_declaration_text(f)
}

pub open spec fn implementation_piece() -> spec_fn(MixinDeriveField) -> Seq<char> {
    |f: MixinDeriveField| setter_implementation_text(f)
}

pub open spec fn generic_piece() -> spec_fn(MixinDeriveField) -> Seq<char> {
    |f: MixinDeriveField| setter_generic_text(f)
}

/// The name of the generated trait: the mixin's name followed by `Mixin`.
pub open spec fn mixin_trait_name(input: MixinDeriveInput) -> Seq<char> {
    input.ident@ + "Mixin"@
}

/// The trait with one setter per field, its implementation on the mixin, and
/// its implementation on every `T: WithMixin<mixin>`.
pub open spec fn mixin_text(input: MixinDeriveInput) -> Seq<char> {
    let name = mixin_trait_name(input);
    "pub trait "@ + name + " "@ + brace(joined_map(input.fields@, declaration_piece())) + " impl "@ + name
        + " for "@ + input.ident@ + " "@ + brace(joined_map(input.fields@, implementation_piece()))
        + " impl < T : :: fabriko :: WithMixin < "@ + input.ident@ + " >> "@ + name + " for T "@
        + brace(joined_map(input.fields@, generic_piece()))
}

impl MixinDeriveField {
    fn signature(&self, receiver: &str) -> (out: String)
        ensures
            out@ == setter_signature_text(*self, receiver@),
    {
        let mut out = String::new();
        out.append("fn ");
        out.append(self.ident.as_str());
        if self.into {
            out.append(" < V : Into < ");
            out.append(self.ty.as_str());
            out.append(" >> (");
            out.append(receiver);
            out.append(" , ");
            out.append(self.ident.as_str());
            out.append(" : V) -> Self");
        } else {
            out.append(" (");
            out.append(receiver);
            out.append(" , ");
            out.append(self.ident.as_str());
            out.append(" : ");
            out.append(self.ty.as_str());
            out.append(") -> Self");
        }
        assert(out@ =~= setter_signature_text(*self, receiver@));
        out
    }

    pub fn derive_setter_declaration(&self) -> (out: String)
        ensures
            out@ == setter_declaration_text(*self),
    {
        let mut out = self.signature("self");
        out.append(" ;");
        assert(out@ =~= setter_declaration_text(*self));
        out
    }

    pub fn derive_setter_implementation(&self) -> (out: String)
        ensures
            out@ == setter_implementation_text(*self),
    {
        let mut out = self.signature("mut self");
        out.append(" { self . ");
        out.append(self.ident.as_str());
        out.append(" = ");
        out.append(self.ident.as_str());
        if self.into {
            out.append(" . into ()");
        }
        out.append(" ; self }");
        assert(out@ =~= setter_implementation_text(*self));
        out
    }

    pub fn derive_setter_implementation_for_generic_t(&self) -> (out: String)
        ensures
            out@ == setter_generic_text(*self),
    {
        let mut out = self.signature("self");
        out.append(" { self . with_mixin (| __mixin | __mixin . ");
        out.append(self.ident.as_str());
        out.append(" (");
        out.append(self.ident.as_str());
        out.append(")) }");
        assert(out@ =~= setter_generic_text(*self));
        out
    }
}

/// Which of the three setters to write for each field.
enum SetterKind {
    Declaration,
    Implementation,
    ForGenericT,
}

spec fn kind_piece(kind: SetterKind) -> spec_fn(MixinDeriveField) -> Seq<char> {
    match kind {
        SetterKind::Declaration => declaration_piece(),
        SetterKind::Implementation => implementation_piece(),
        SetterKind::ForGenericT => generic_piece(),
    }
}

fn setters(fields: &Vec<MixinDeriveField>, kind: &SetterKind) -> (out: String)
    ensures
        out@ == joined_map(fields@, kind_piece(*kind)),
{
    let mut out = String::new();
    let mut i: usize = 0;
    while i < fields.len()
        invariant
            i <= fields.len(),
            out@ == joined_map(fields@.take(i as int), kind_piece(*kind)),
        decreases fields.len() - i,
    {
        proof {
            lemma_joined_map_step(fields@, kind_piece(*kind), i as int);
        }
        let piece = match kind {
            SetterKind::Declaration => fields[i].derive_setter_declaration(),
            SetterKind::Implementation => fields[i].derive_setter_implementation(),
            SetterKind::ForGenericT => fields[i].derive_setter_implementation_for_generic_t(),
        };
        push_stream(&mut out, piece.as_str());
        i = i + 1;
    }
    assert(fields@.take(fields.len() as int) =~= fields@);
    out
}

impl MixinDeriveInput {
    /// Source text of the mixin's setter trait and its two implementations.
    pub fn derive_mixin_trait_definition_and_impl(&self) -> (out: String)
        ensures
            out@ == mixin_text(*self),
    {
        let declarations = setters(&self.fields, &SetterKind::Declaration);
        let implementations = setters(&self.fields, &SetterKind::Implementation);
        let for_generic_t = setters(&self.fields, &SetterKind::ForGenericT);
        let mut name = self.ident.clone();
        name.append("Mixin");
        let mut out = String::new();
        out.append("pub trait ");
        out.append(name.as_str());
        out.append(" ");
        push_brace(&mut out, declarations.as_str());
        out.append(" impl ");
        out.append(name.as_str());
        out.append(" for ");
        out.append(self.ident.as_str());
        out.append(" ");
        push_brace(&mut out, implementations.as_str());
        out.append(" impl < T : :: fabriko :: WithMixin < ");
        out.append(self.ident.as_str());
        out.append(" >> ");
        out.append(name.as_str());
        out.append(" for T ");
        push_brace(&mut out, for_generic_t.as_str());
        assert(out@ =~= mixin_text(*self));
        out
    }
}

/// The mixin's setter trait and implementations as tokens: the text
/// `derive_mixin_trait_definition_and_impl` generates, lexed by `proc_macro2`;
/// a success means `proc_macro2`'s own lexer
/// accepts that text, and an error means the text was not accepted.
pub fn do_derive_mixin(input: &MixinDeriveInput) -> (r: Result<proc_macro2::TokenStream, DeriveError>)
    ensures
        r is Ok ==> accepted_by_proc_macro2(mixin_text(*input)),
        r matches Err(e) ==> e == DeriveError::InvalidTokens,
{
    let code = input.derive_mixin_trait_definition_and_impl();
    tokens_of(&code)
}

/// The generated trait is named after the mixin with `Mixin` appended, so it
/// never takes the mixin struct's own name: the text starts by declaring
/// `pub trait <mixin>Mixin`.
pub proof fn lemma_mixin_trait_is_named_after_the_mixin(input: MixinDeriveInput)
    ensures
        ("pub trait "@ + input.ident@ + "Mixin"@ + " "@).is_prefix_of(mixin_text(input)),
        mixin_trait_name(input) != input.ident@,
        mixin_trait_name(input).len() == input.ident@.len() + 5,
{
    reveal_strlit("Mixin");
    let name = input.ident@ + "Mixin"@;
    let head = "pub trait "@ + input.ident@ + "Mixin"@ + " "@;
    let rest = brace(joined_map(input.fields@, declaration_piece())) + " impl "@ + name + " for "@ + input.ident@ + " "@
        + brace(joined_map(input.fields@, implementation_piece())) + " impl < T : :: fabriko :: WithMixin < "@
        + input.ident@ + " >> "@ + name + " for T "@ + brace(joined_map(input.fields@, generic_piece()));
    assert(mixin_text(input) =~= head + rest);
    assert(mixin_text(input).subrange(0, head.len() as int) =~= head);
}

} // verus!
