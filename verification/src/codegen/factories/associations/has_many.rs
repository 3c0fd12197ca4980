//! `#[factory(has_many(factory = .., name = .., link = ..))]`: many related
//! resources made by one factory, linked through the field named `link`.
use vstd::prelude::*;
use crate::codegen::tokens::{fnv_hash, fnv_hash_of, push_u64_literal, u64_literal};
use crate::codegen::factories::associations::belongs_to::{
    belonging_to_link_text, belonging_to_setters_text, BelongsToAssociation,
};
use crate::codegen::factories::associations::{
    setter_text, AssociationAttributesStructure, AssociationAttributesStructureField, AssociationsCodegen,
    AssociationsSetter,
};

verus! {

pub struct HasManyAssociation {
    /// The source text of the path of the related resources' factory.
    pub for_factory: String,
    /// The name of the association.
    pub name: String,
    /// The field of the related resources that holds this resource's identifier.
    pub link: String,
}

/// `::fabriko::HasMany<<hash of link>, <factory>>`
pub open spec fn has_many_type_text(association: HasManyAssociation) -> Seq<char> {
    ":: fabriko :: HasMany < "@ + u64_literal(fnv_hash(association.link@)) + " , "@ + association.for_factory@ + " >"@
}

pub open spec fn has_many_setter_fn_text(association: HasManyAssociation) -> Seq<char> {
    "with_"@ + association.name@ + " < FUNC : FnOnce ("@ + association.for_factory@ + ") -> "@ + association.for_factory@ + " >"@
}

pub open spec fn has_many_create_text(association: HasManyAssociation) -> Seq<char> {
    association.name@ + " . with :: < "@ + u64_literal(fnv_hash(association.link@)) + " , _ > (__func)"@
}

/// The setter `with_<name>` that adds one related resource, made by a
/// function from a default factory, under the link of the association.
pub open spec fn has_many_setters_text(
    association: HasManyAssociation,
    structure_ident: Seq<char>,
    fields: Seq<AssociationAttributesStructureField>,
) -> Seq<char> {
    setter_text(
        structure_ident,
        fields,
        association.name@,
        has_many_setter_fn_text(association),
        "__func : FUNC"@,
        has_many_create_text(association),
        has_many_type_text(association),
        has_many_type_text(association),
    )
}

impl HasManyAssociation {
    pub fn duplicate(&self) -> (out: Self)
        ensures
            out == *self,
    {
        HasManyAssociation { for_factory: self.for_factory.clone(), name: self.name.clone(), link: self.link.clone() }
    }

    pub fn link_hash(&self) -> (h: u64)
        ensures
            h == fnv_hash(self.link@),
    {
        fnv_hash_of(self.link.as_str())
    }

    pub fn has_many_type(&self) -> (out: String)
        ensures
            out@ == has_many_type_text(*self),
    {
        let hash = self.link_hash();
        let mut out = String::new();
        out.append(":: fabriko :: HasMany < ");
        push_u64_literal(&mut out, hash);
        out.append(" , ");
        out.append(self.for_factory.as_str());
        out.append(" >");
        assert(out@ =~= has_many_type_text(*self));
        out
    }

    fn setter(&self) -> (out: AssociationsSetter)
        ensures
            out.field_ident@ == self.name@,
            out.setter_fn@ == has_many_setter_fn_text(*self),
            out.argument_of_setter@ == "__func : FUNC"@,
            out.create_set_type_of_association@ == has_many_create_text(*self),
            out.default_type_of_association@ == has_many_type_text(*self),
            out.set_type_of_association@ == has_many_type_text(*self),
    {
        let has_many_type = self.has_many_type();
        let hash = self.link_hash();
        let mut setter_fn = String::new();
        setter_fn.append("with_");
        setter_fn.append(self.name.as_str());
        setter_fn.append(" < FUNC : FnOnce (");
        setter_fn.append(self.for_factory.as_str());
        setter_fn.append(") -> ");
        setter_fn.append(self.for_factory.as_str());
        setter_fn.append(" >");
        assert(setter_fn@ =~= has_many_setter_fn_text(*self));
        let mut create = self.name.clone();
        create.append(" . with :: < ");
        push_u64_literal(&mut create, hash);
        create.append(" , _ > (__func)");
        assert(create@ =~= has_many_create_text(*self));
        let mut argument = String::new();
        argument.append("__func : FUNC");
        AssociationsSetter {
            field_ident: self.name.clone(),
            setter_fn,
            argument_of_setter: argument,
            create_set_type_of_association: create,
            default_type_of_association: has_many_type.clone(),
            set_type_of_association: has_many_type,
        }
    }
}

impl AssociationsCodegen for HasManyAssociation {
    /// The setter `with_<name>`.
    open spec fn setters_text(&self, structure_ident: Seq<char>, fields: Seq<AssociationAttributesStructureField>) -> Seq<char> {
        has_many_setters_text(*self, structure_ident, fields)
    }

    fn derive_setters(&self, structure: &AssociationAttributesStructure) -> (out: String) {
        let setter = self.setter();
        setter.derive_setter(structure)
    }
}

} // verus!

verus! {

/// A has-many association and the field its link names on the related
/// resources' factory are tied by one link number: the association's
/// `HasMany` type, the call that adds a related resource, the field's
/// `BelongingToLink` implementation and the field's setter of an existing
/// identifier all carry the same number.
pub proof fn lemma_has_many_link_matches_field_link(
    association: HasManyAssociation,
    related: BelongsToAssociation,
    related_factory_ident: Seq<char>,
    field_ty: Seq<char>,
)
    ensures
        exists|n: u64|
            #![trigger u64_literal(n)]
            has_many_type_text(association) == ":: fabriko :: HasMany < "@ + u64_literal(n) + " , "@
                + association.for_factory@ + " >"@ && has_many_create_text(association) == association.name@
                + " . with :: < "@ + u64_literal(n) + " , _ > (__func)"@ && belonging_to_link_text(
                related_factory_ident,
                association.link@,
                field_ty,
            ) == "impl :: fabriko :: BelongingToLink < { "@ + u64_literal(n) + " } > for "@ + related_factory_ident
                + " { type ID = "@ + field_ty + " ; fn setter (factory : Self , id : Self :: ID) -> Self { "@
                + related_factory_ident + " :: "@ + association.link@ + " (factory , id) } }"@ && belonging_to_setters_text(
                related,
                association.link@,
            ) == "pub fn belonging_to_"@ + association.link@ + " < F : FnOnce ("@ + related.factory@ + ") -> "@
                + related.factory@ + " > (mut self , f : F) -> Self { self . "@ + association.link@
                + " = :: fabriko :: BelongsTo :: Create (f (Default :: default ())) ; self } pub fn "@
                + association.link@ + " (mut self , id : < Self as :: fabriko :: BelongingToLink < { "@ + u64_literal(n)
                + " } >> :: ID) -> Self { self . "@ + association.link@
                + " = :: fabriko :: BelongsTo :: Created (id) ; self }"@,
{
    let n = fnv_hash(association.link@);
    assert(u64_literal(n) == u64_literal(n));
}

} // verus!
