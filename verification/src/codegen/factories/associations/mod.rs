//! Related resources of a factory (`#[factory(has_many(..), has_one(..),
//! associations = ..)]`): a struct that holds one association per related
//! resource, its default value, how it is attached to the created resource,
//! and setters that replace one association at a time.
use vstd::prelude::*;
use crate::codegen::text::{brace, joined_map, lemma_joined_map_step, push_brace, push_space_if_any, push_stream, sep, trailing};
use crate::codegen::tokens::push_char;

pub mod belongs_to;
pub mod has_many;
pub mod has_one;

use crate::codegen::factories::associations::has_many::{has_many_type_text, HasManyAssociation};
use crate::codegen::factories::associations::has_one::HasOneAssociation;

verus! {

/// The associations a factory declares, and the name of the struct that holds them.
pub struct AssociationsDeriveAttributes<'a> {
    pub has_many: &'a Vec<HasManyAssociation>,
    pub has_one: &'a Vec<HasOneAssociation>,
    pub associations_ty: &'a String,
}

/// Generates the associations struct of `factory_ident` and everything around it.
pub fn derive_associations(
    has_many: &Vec<HasManyAssociation>,
    has_one: &Vec<HasOneAssociation>,
    associations_ty: &String,
    factory_ident: &String,
) -> (out: String)
    requires
        has_many@.len() + has_one@.len() <= 26,
    ensures
        out@ == related_resources_text(associations_ty@, structure_fields(has_many@, has_one@), factory_ident@),
{
    AssociationsDeriveAttributes { has_many, has_one, associations_ty }.derive_related_resources(factory_ident)
}

/// The two kinds of association.
pub enum AssociationKind {
    HasMany(HasManyAssociation),
    HasOne(HasOneAssociation),
}

/// Code generation of the setters of one association.
pub trait AssociationsCodegen {
    /// The setters for this association inside the associations struct
    /// `structure_ident` whose fields are `fields`.
    spec fn setters_text(&self, structure_ident: Seq<char>, fields: Seq<AssociationAttributesStructureField>) -> Seq<char>;

    fn derive_setters(&self, structure: &AssociationAttributesStructure) -> (out: String)
        ensures
            out@ == self.setters_text(structure.ident@, structure.fields@),
    ;
}

/// One setter of the associations struct: it replaces the association held in
/// `field_ident` and changes that field's type parameter accordingly.
pub struct AssociationsSetter {
    pub field_ident: String,
    pub setter_fn: String,
    pub argument_of_setter: String,
    pub create_set_type_of_association: String,
    pub default_type_of_association: String,
    pub set_type_of_association: String,
}

/// One field of the associations struct: its name, its type parameter and the
/// association it holds.
pub struct AssociationAttributesStructureField {
    pub field_ident: String,
    pub generic: char,
    pub kind: AssociationKind,
}

/// The associations struct: its name and its fields.
pub struct AssociationAttributesStructure {
    pub ident: String,
    pub fields: Vec<AssociationAttributesStructureField>,
}

/// The type parameter letter of the field at `index`: `A`, `B`, ...
pub open spec fn generic_char(index: int) -> char {
    ((65 + index) as u8) as char
}

/// The field at `index` of the associations struct: the has-many associations
/// first, then the has-one ones, each named by its association.
pub open spec fn structure_field(
    has_many: Seq<HasManyAssociation>,
    has_one: Seq<HasOneAssociation>,
    index: int,
) -> AssociationAttributesStructureField {
    if index < has_many.len() {
        AssociationAttributesStructureField {
            field_ident: has_many[index].name,
            generic: generic_char(index),
            kind: AssociationKind::HasMany(has_many[index]),
        }
    } else {
        AssociationAttributesStructureField {
            field_ident: has_one[index - has_many.len()].name,
            generic: generic_char(index),
            kind: AssociationKind::HasOne(has_one[index - has_many.len()]),
        }
    }
}

pub open spec fn structure_fields(
    has_many: Seq<HasManyAssociation>,
    has_one: Seq<HasOneAssociation>,
) -> Seq<AssociationAttributesStructureField> {
    Seq::new(has_many.len() + has_one.len(), |i: int| structure_field(has_many, has_one, i))
}

/// How one field of the associations struct is written in a given place.
pub enum FieldPiece {
    /// `<field>,`
    Name,
    /// `<G>,`
    Generic,
    /// `<G>,`, except nothing for the field named by the string.
    OtherGeneric(String),
    /// `<ty>,` for the field named by the first string, `<G>,` for the others.
    Replaced(String, String),
    /// `<G>: ::fabriko::BelongingTo<RESOURCE>,`
    BelongingToBound,
    /// `pub <field>: <G>,`
    Declaration,
    /// The default association type of the field, followed by a comma.
    DefaultAssociation,
    /// `let <field> = <field>.belonging_to(__resource);`
    Reattach,
}

pub open spec fn generic_item(f: AssociationAttributesStructureField) -> Seq<char> {
    seq![f.generic] + " ,"@
}

pub open spec fn name_piece() -> spec_fn(AssociationAttributesStructureField) -> Seq<char> {
    |f: AssociationAttributesStructureField| f.field_ident@ + " ,"@
}

pub open spec fn generic_piece() -> spec_fn(AssociationAttributesStructureField) -> Seq<char> {
    |f: AssociationAttributesStructureField| generic_item(f)
}

pub open spec fn other_generic_piece(name: Seq<char>) -> spec_fn(AssociationAttributesStructureField) -> Seq<char> {
    |f: AssociationAttributesStructureField|
        if f.field_ident@ == name {
            Seq::empty()
        } else {
            generic_item(f)
        }
}

pub open spec fn replaced_piece(name: Seq<char>, ty: Seq<char>) -> spec_fn(AssociationAttributesStructureField) -> Seq<char> {
    |f: AssociationAttributesStructureField|
        if f.field_ident@ == name {
            ty + " ,"@
        } else {
            generic_item(f)
        }
}

pub open spec fn bound_piece() -> spec_fn(AssociationAttributesStructureField) -> Seq<char> {
    |f: AssociationAttributesStructureField| seq![f.generic] + " : :: fabriko :: BelongingTo < RESOURCE > ,"@
}

pub open spec fn declaration_piece() -> spec_fn(AssociationAttributesStructureField) -> Seq<char> {
    |f: AssociationAttributesStructureField| "pub "@ + f.field_ident@ + " : "@ + seq![f.generic] + " ,"@
}

pub open spec fn default_association_piece() -> spec_fn(AssociationAttributesStructureField) -> Seq<char> {
    |f: AssociationAttributesStructureField|
        match f.kind {
            AssociationKind::HasMany(many) => has_many_type_text(many) + " ,"@,
            AssociationKind::HasOne(one) => ":: fabriko :: HasOneDefault < "@ + one.for_factory@ + " > ,"@,
        }
}

pub open spec fn reattach_piece() -> spec_fn(AssociationAttributesStructureField) -> Seq<char> {
    |f: AssociationAttributesStructureField|
        "let "@ + f.field_ident@ + " = "@ + f.field_ident@ + " . belonging_to (__resource) ;"@
}

pub open spec fn piece(kind: FieldPiece) -> spec_fn(AssociationAttributesStructureField) -> Seq<char> {
    match kind {
        FieldPiece::Name => name_piece(),
        FieldPiece::Generic => generic_piece(),
        FieldPiece::OtherGeneric(name) => other_generic_piece(name@),
        FieldPiece::Replaced(name, ty) => replaced_piece(name@, ty@),
        FieldPiece::BelongingToBound => bound_piece(),
        FieldPiece::Declaration => declaration_piece(),
        FieldPiece::DefaultAssociation => default_association_piece(),
        FieldPiece::Reattach => reattach_piece(),
    }
}

/// The setter that replaces the association held in `field_ident`: it is
/// called `setter_fn` (with its generics), takes `argument`, stores `create`
/// in the field, and turns the field's type from `default_ty` to `set_ty`.
pub open spec fn setter_text(
    structure_ident: Seq<char>,
    fields: Seq<AssociationAttributesStructureField>,
    field_ident: Seq<char>,
    setter_fn: Seq<char>,
    argument: Seq<char>,
    create: Seq<char>,
    default_ty: Seq<char>,
    set_ty: Seq<char>,
) -> Seq<char> {
    let all = brace(joined_map(fields, name_piece()));
    "impl < "@ + trailing(joined_map(fields, other_generic_piece(field_ident))) + "> "@ + structure_ident + " < "@
        + trailing(joined_map(fields, replaced_piece(field_ident, default_ty)))
        + "> { # [allow (unused_variables)] pub fn "@ + setter_fn + " (self , "@ + argument + " ,) -> "@
        + structure_ident + " < "@ + trailing(joined_map(fields, replaced_piece(field_ident, set_ty))) + "> { let "@
        + structure_ident + " "@ + all + " = self ; let "@ + field_ident + " = "@ + create + " ; "@ + structure_ident
        + " "@ + all + " } }"@
}

/// `#[derive(Default)] pub struct <S><A, B, ..> { pub <field>: <G>, .. }`
pub open spec fn structure_declaration_text(ident: Seq<char>, fields: Seq<AssociationAttributesStructureField>) -> Seq<char> {
    "# [derive (Default)] pub struct "@ + ident + " < "@ + trailing(joined_map(fields, generic_piece())) + "> "@
        + brace(joined_map(fields, declaration_piece()))
}

/// The factory's `WithRelatedResources` implementation: its default
/// associations are `HasMany` and `HasOneDefault` of each related factory.
pub open spec fn with_related_resources_text(
    ident: Seq<char>,
    fields: Seq<AssociationAttributesStructureField>,
    factory_ident: Seq<char>,
) -> Seq<char> {
    "impl :: fabriko :: WithRelatedResources for "@ + factory_ident + " { type DefaultAssociations = "@ + ident + " < "@
        + trailing(joined_map(fields, default_association_piece())) + "> ; }"@
}

/// The associations struct's `BelongingTo` implementation: every association is
/// attached to the resource.
pub open spec fn belonging_to_text(ident: Seq<char>, fields: Seq<AssociationAttributesStructureField>) -> Seq<char> {
    let all = brace(joined_map(fields, name_piece()));
    "impl < RESOURCE , "@ + trailing(joined_map(fields, bound_piece())) + "> BelongingTo < RESOURCE > for "@
        + ident + " < "@ + trailing(joined_map(fields, generic_piece()))
        + "> { fn belonging_to (self , __resource : & RESOURCE) -> Self { let "@ + ident + " "@ + all + " = self ; "@
        + trailing(joined_map(fields, reattach_piece())) + ident + " "@ + all + " } }"@
}

pub open spec fn kind_setters_text(
    kind: AssociationKind,
    structure_ident: Seq<char>,
    fields: Seq<AssociationAttributesStructureField>,
) -> Seq<char> {
    match kind {
        AssociationKind::HasMany(many) => many.setters_text(structure_ident, fields),
        AssociationKind::HasOne(one) => one.setters_text(structure_ident, fields),
    }
}

pub open spec fn setters_piece(
    structure_ident: Seq<char>,
    fields: Seq<AssociationAttributesStructureField>,
) -> spec_fn(AssociationAttributesStructureField) -> Seq<char> {
    |f: AssociationAttributesStructureField| kind_setters_text(f.kind, structure_ident, fields)
}

/// The setters of every association, in field order.
pub open spec fn all_setters_text(ident: Seq<char>, fields: Seq<AssociationAttributesStructureField>) -> Seq<char> {
    joined_map(fields, setters_piece(ident, fields))
}

/// Everything generated for the related resources of `factory_ident`.
pub open spec fn related_resources_text(
    ident: Seq<char>,
    fields: Seq<AssociationAttributesStructureField>,
    factory_ident: Seq<char>,
) -> Seq<char> {
    sep(
        sep(
            sep(structure_declaration_text(ident, fields), with_related_resources_text(ident, fields, factory_ident)),
            belonging_to_text(ident, fields),
        ),
        all_setters_text(ident, fields),
    )
}

/// The type parameter letter of the field at `index`.
fn index_as_generic_char(index: usize) -> (c: char)
    requires
        index < 26,
    ensures
        c == generic_char(index as int),
{
    let offset: u8 = index as u8;
    (65u8 + offset) as char
}

impl AssociationAttributesStructureField {
    /// `<field>,`: how the field is named when the struct is taken apart or rebuilt.
    pub fn ident_when_destructuring(&self) -> (out: String)
        ensures
            out@ == (name_piece())(*self),
    {
        let mut out = self.field_ident.clone();
        out.append(" ,");
        assert(out@ =~= (name_piece())(*self));
        out
    }

    /// `let <field> = <field>.belonging_to(__resource);`: the association
    /// held in the field, attached to the created resource.
    pub fn reassign_belonging_to(&self) -> (out: String)
        ensures
            out@ == (reattach_piece())(*self),
    {
        let mut out = String::new();
        out.append("let ");
        out.append(self.field_ident.as_str());
        out.append(" = ");
        out.append(self.field_ident.as_str());
        out.append(" . belonging_to (__resource) ;");
        assert(out@ =~= (reattach_piece())(*self));
        out
    }
}

fn piece_of(kind: &FieldPiece, f: &AssociationAttributesStructureField) -> (out: String)
    ensures
        out@ == (piece(*kind))(*f),
{
    let mut out = String::new();
    match kind {
        FieldPiece::Name => {
            out = f.ident_when_destructuring();
        },
        FieldPiece::Generic => {
            push_char(&mut out, f.generic);
            out.append(" ,");
        },
        FieldPiece::OtherGeneric(name) => {
            if f.field_ident != *name {
                push_char(&mut out, f.generic);
                out.append(" ,");
            }
        },
        FieldPiece::Replaced(name, ty) => {
            if f.field_ident == *name {
                out.append(ty.as_str());
            } else {
                push_char(&mut out, f.generic);
            }
            out.append(" ,");
        },
        FieldPiece::BelongingToBound => {
            push_char(&mut out, f.generic);
            out.append(" : :: fabriko :: BelongingTo < RESOURCE > ,");
        },
        FieldPiece::Declaration => {
            out.append("pub ");
            out.append(f.field_ident.as_str());
            out.append(" : ");
            push_char(&mut out, f.generic);
            out.append(" ,");
        },
        FieldPiece::DefaultAssociation => match &f.kind {
            AssociationKind::HasMany(many) => {
                out = many.has_many_type();
                out.append(" ,");
            },
            AssociationKind::HasOne(one) => {
                out.append(":: fabriko :: HasOneDefault < ");
                out.append(one.for_factory.as_str());
                out.append(" > ,");
            },
        },
        FieldPiece::Reattach => {
            out = f.reassign_belonging_to();
        },
    }
    assert(out@ =~= (piece(*kind))(*f));
    out
}

/// The text of every field written as `kind` says, in field order.
fn join_pieces(fields: &Vec<AssociationAttributesStructureField>, kind: &FieldPiece) -> (out: String)
    ensures
        out@ == joined_map(fields@, piece(*kind)),
{
    let mut out = String::new();
    let mut i: usize = 0;
    while i < fields.len()
        invariant
            i <= fields.len(),
            out@ == joined_map(fields@.take(i as int), piece(*kind)),
        decreases fields.len() - i,
    {
        proof {
            lemma_joined_map_step(fields@, piece(*kind), i as int);
        }
        let text = piece_of(kind, &fields[i]);
        push_stream(&mut out, text.as_str());
        i = i + 1;
    }
    assert(fields@.take(fields.len() as int) =~= fields@);
    out
}

/// The text of every field written as `kind` says, followed by a space when not empty.
fn join_pieces_spaced(fields: &Vec<AssociationAttributesStructureField>, kind: &FieldPiece) -> (out: String)
    ensures
        out@ == trailing(joined_map(fields@, piece(*kind))),
{
    let mut out = join_pieces(fields, kind);
    push_space_if_any(&mut out);
    out
}

impl AssociationsSetter {
    pub fn derive_setter(&self, structure: &AssociationAttributesStructure) -> (out: String)
        ensures
            out@ == setter_text(
                structure.ident@,
                structure.fields@,
                self.field_ident@,
                self.setter_fn@,
                self.argument_of_setter@,
                self.create_set_type_of_association@,
                self.default_type_of_association@,
                self.set_type_of_association@,
            ),
    {
        let ident = &structure.ident;
        let fields = &structure.fields;
        let generics = join_pieces_spaced(fields, &FieldPiece::OtherGeneric(self.field_ident.clone()));
        let base_generics = join_pieces_spaced(
            fields,
            &FieldPiece::Replaced(self.field_ident.clone(), self.default_type_of_association.clone()),
        );
        let set_generics = join_pieces_spaced(
            fields,
            &FieldPiece::Replaced(self.field_ident.clone(), self.set_type_of_association.clone()),
        );
        let names = join_pieces(fields, &FieldPiece::Name);
        let mut all = String::new();
        push_brace(&mut all, names.as_str());
        let mut out = String::new();
        out.append("impl < ");
        out.append(generics.as_str());
        out.append("> ");
        out.append(ident.as_str());
        out.append(" < ");
        out.append(base_generics.as_str());
        out.append("> { # [allow (unused_variables)] pub fn ");
        out.append(self.setter_fn.as_str());
        out.append(" (self , ");
        out.append(self.argument_of_setter.as_str());
        out.append(" ,) -> ");
        out.append(ident.as_str());
        out.append(" < ");
        out.append(set_generics.as_str());
        out.append("> { let ");
        out.append(ident.as_str());
        out.append(" ");
        out.append(all.as_str());
        out.append(" = self ; let ");
        out.append(self.field_ident.as_str());
        out.append(" = ");
        out.append(self.create_set_type_of_association.as_str());
        out.append(" ; ");
        out.append(ident.as_str());
        out.append(" ");
        out.append(all.as_str());
        out.append(" } }");
        assert(out@ =~= setter_text(
            structure.ident@,
            structure.fields@,
            self.field_ident@,
            self.setter_fn@,
            self.argument_of_setter@,
            self.create_set_type_of_association@,
            self.default_type_of_association@,
            self.set_type_of_association@,
        ));
        out
    }
}

impl<'a> AssociationsDeriveAttributes<'a> {
    /// The associations struct: the has-many associations first, then the
    /// has-one ones, with type parameters `A`, `B`, ... in that order.
    pub fn as_structure(&self) -> (out: AssociationAttributesStructure)
        requires
            self.has_many@.len() + self.has_one@.len() <= 26,
        ensures
            out.ident == *self.associations_ty,
            out.fields@ == structure_fields(self.has_many@, self.has_one@),
    {
        let mut fields: Vec<AssociationAttributesStructureField> = Vec::new();
        let mut i: usize = 0;
        while i < self.has_many.len()
            invariant
                i <= self.has_many@.len(),
                self.has_many@.len() + self.has_one@.len() <= 26,
                fields@ =~= Seq::new(i as nat, |k: int| structure_field(self.has_many@, self.has_one@, k)),
            decreases self.has_many.len() - i,
        {
            let many = &self.has_many[i];
            fields.push(
                AssociationAttributesStructureField {
                    field_ident: many.name.clone(),
                    generic: index_as_generic_char(i),
                    kind: AssociationKind::HasMany(many.duplicate()),
                },
            );
            i = i + 1;
        }
        let mut j: usize = 0;
        while j < self.has_one.len()
            invariant
                j <= self.has_one@.len(),
                self.has_many@.len() + self.has_one@.len() <= 26,
                fields@ =~= Seq::new(
                    (self.has_many@.len() + j) as nat,
                    |k: int| structure_field(self.has_many@, self.has_one@, k),
                ),
            decreases self.has_one.len() - j,
        {
            let one = &self.has_one[j];
            let index = self.has_many.len() + j;
            fields.push(
                AssociationAttributesStructureField {
                    field_ident: one.name.clone(),
                    generic: index_as_generic_char(index),
                    kind: AssociationKind::HasOne(one.duplicate()),
                },
            );
            j = j + 1;
        }
        AssociationAttributesStructure { ident: self.associations_ty.clone(), fields }
    }

    /// Everything generated for the related resources of `factory_ident`.
    pub fn derive_related_resources(&self, factory_ident: &String) -> (out: String)
        requires
            self.has_many@.len() + self.has_one@.len() <= 26,
        ensures
            out@ == related_resources_text(
                self.associations_ty@,
                structure_fields(self.has_many@, self.has_one@),
                factory_ident@,
            ),
    {
        let structure = self.as_structure();
        let mut out = structure.derive_structure_declaration();
        let with_related = structure.derive_with_related_resources_impl(factory_ident);
        push_stream(&mut out, with_related.as_str());
        let belonging_to = structure.derive_belonging_to_implementation_for_associations();
        push_stream(&mut out, belonging_to.as_str());
        let setters = structure.derive_setters();
        push_stream(&mut out, setters.as_str());
        out
    }
}

impl AssociationAttributesStructure {
    pub fn derive_structure_declaration(&self) -> (out: String)
        ensures
            out@ == structure_declaration_text(self.ident@, self.fields@),
    {
        let generics = join_pieces_spaced(&self.fields, &FieldPiece::Generic);
        let declarations = join_pieces(&self.fields, &FieldPiece::Declaration);
        let mut out = String::new();
        out.append("# [derive (Default)] pub struct ");
        out.append(self.ident.as_str());
        out.append(" < ");
        out.append(generics.as_str());
        out.append("> ");
        push_brace(&mut out, declarations.as_str());
        assert(out@ =~= structure_declaration_text(self.ident@, self.fields@));
        out
    }

    pub fn derive_with_related_resources_impl(&self, factory_ident: &String) -> (out: String)
        ensures
            out@ == with_related_resources_text(self.ident@, self.fields@, factory_ident@),
    {
        let defaults = join_pieces_spaced(&self.fields, &FieldPiece::DefaultAssociation);
        let mut out = String::new();
        out.append("impl :: fabriko :: WithRelatedResources for ");
        out.append(factory_ident.as_str());
        out.append(" { type DefaultAssociations = ");
        out.append(self.ident.as_str());
        out.append(" < ");
        out.append(defaults.as_str());
        out.append("> ; }");
        assert(out@ =~= with_related_resources_text(self.ident@, self.fields@, factory_ident@));
        out
    }

    pub fn derive_belonging_to_implementation_for_associations(&self) -> (out: String)
        ensures
            out@ == belonging_to_text(self.ident@, self.fields@),
    {
        let bounds = join_pieces_spaced(&self.fields, &FieldPiece::BelongingToBound);
        let generics = join_pieces_spaced(&self.fields, &FieldPiece::Generic);
        let names = join_pieces(&self.fields, &FieldPiece::Name);
        let mut all = String::new();
        push_brace(&mut all, names.as_str());
        let reattach = join_pieces_spaced(&self.fields, &FieldPiece::Reattach);
        let mut out = String::new();
        out.append("impl < RESOURCE , ");
        out.append(bounds.as_str());
        out.append("> BelongingTo < RESOURCE > for ");
        out.append(self.ident.as_str());
        out.append(" < ");
        out.append(generics.as_str());
        out.append("> { fn belonging_to (self , __resource : & RESOURCE) -> Self { let ");
        out.append(self.ident.as_str());
        out.append(" ");
        out.append(all.as_str());
        out.append(" = self ; ");
        out.append(reattach.as_str());
        out.append(self.ident.as_str());
        out.append(" ");
        out.append(all.as_str());
        out.append(" } }");
        assert(out@ =~= belonging_to_text(self.ident@, self.fields@));
        out
    }

    /// The setters of every association, in field order.
    pub fn derive_setters(&self) -> (out: String)
        ensures
            out@ == all_setters_text(self.ident@, self.fields@),
    {
        let mut out = String::new();
        let mut i: usize = 0;
        while i < self.fields.len()
            invariant
                i <= self.fields.len(),
                out@ == joined_map(self.fields@.take(i as int), setters_piece(self.ident@, self.fields@)),
            decreases self.fields.len() - i,
        {
            proof {
                lemma_joined_map_step(self.fields@, setters_piece(self.ident@, self.fields@), i as int);
            }
            let text = match &self.fields[i].kind {
                AssociationKind::HasMany(many) => many.derive_setters(self),
                AssociationKind::HasOne(one) => one.derive_setters(self),
            };
            push_stream(&mut out, text.as_str());
            i = i + 1;
        }
        assert(self.fields@.take(self.fields.len() as int) =~= self.fields@);
        out
    }
}

proof fn lemma_generic_char_value(i: int)
    requires
        0 <= i < 26,
    ensures
        generic_char(i) as int == 65 + i,
{
    let x: u8 = (65 + i) as u8;
    assert(x == 65 + i);
    assert(x as int == (x as char) as int);
}

/// The associations struct has one field per association, the has-many ones
/// first and the has-one ones after, each named after its association; the
/// `i`-th field's type parameter is the `i`-th capital letter, so no two
/// fields share a type parameter.
pub proof fn lemma_structure_fields_have_their_own_letters(
    has_many: Seq<HasManyAssociation>,
    has_one: Seq<HasOneAssociation>,
)
    requires
        has_many.len() + has_one.len() <= 26,
    ensures
        structure_fields(has_many, has_one).len() == has_many.len() + has_one.len(),
        forall|i: int|
            0 <= i < has_many.len() + has_one.len() ==> #[trigger] structure_fields(has_many, has_one)[i].generic as int
                == 65 + i,
        forall|i: int, j: int|
            0 <= i < j < has_many.len() + has_one.len() ==> #[trigger] structure_fields(has_many, has_one)[i].generic
                != #[trigger] structure_fields(has_many, has_one)[j].generic,
        forall|i: int|
            0 <= i < has_many.len() ==> #[trigger] structure_fields(has_many, has_one)[i] == (
            AssociationAttributesStructureField {
                field_ident: has_many[i].name,
                generic: structure_fields(has_many, has_one)[i].generic,
                kind: AssociationKind::HasMany(has_many[i]),
            }),
        forall|i: int|
            has_many.len() <= i < has_many.len() + has_one.len() ==> #[trigger] structure_fields(has_many, has_one)[i]
                == (AssociationAttributesStructureField {
                field_ident: has_one[i - has_many.len()].name,
                generic: structure_fields(has_many, has_one)[i].generic,
                kind: AssociationKind::HasOne(has_one[i - has_many.len()]),
            }),
{
    let n = has_many.len() + has_one.len();
    assert forall|i: int| 0 <= i < n implies #[trigger] structure_fields(has_many, has_one)[i].generic as int == 65
        + i by {
        lemma_generic_char_value(i);
    }
    assert forall|i: int, j: int| 0 <= i < j < n implies #[trigger] structure_fields(has_many, has_one)[i].generic
        != #[trigger] structure_fields(has_many, has_one)[j].generic by {
        lemma_generic_char_value(i);
        lemma_generic_char_value(j);
    }
}

} // verus!
