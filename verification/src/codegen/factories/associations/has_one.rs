//! `#[factory(has_one(factory = .., name = .., link = ..))]`: one related
//! resource, either an existing one given by its identifier or one made by a
//! factory.
use vstd::prelude::*;
use crate::codegen::text::{push_stream, sep};
use crate::codegen::tokens::{fnv_hash, fnv_hash_of, push_u64_literal, u64_literal};
use crate::codegen::factories::associations::{
    setter_text, AssociationAttributesStructure, AssociationAttributesStructureField, AssociationsCodegen,
    AssociationsSetter,
};

verus! {

pub struct HasOneAssociation {
    /// The source text of the path of the related resource's factory.
    pub for_factory: String,
    /// The name of the association.
    pub name: String,
    /// The field of the related resource that holds this resource's identifier.
    pub link: String,
}

/// The setter of an existing related resource's identifier.
pub struct PredefinedSetter<'a>(pub &'a HasOneAssociation);

/// The setter of a factory for the related resource.
pub struct FactorySetter<'a>(pub &'a HasOneAssociation);

/// `<<factory> as ::fabriko::BelongingToLink<<hash of link>>>::ID`
pub open spec fn link_id_type_text(association: HasOneAssociation) -> Seq<char> {
    "< "@ + association.for_factory@ + " as :: fabriko :: BelongingToLink < "@
        + u64_literal(fnv_hash(association.link@)) + " >> :: ID"@
}

pub open spec fn has_one_default_text(association: HasOneAssociation) -> Seq<char> {
    ":: fabriko :: HasOneDefault < "@ + association.for_factory@ + " >"@
}

/// The setter `<name>_id`, which holds an existing resource's identifier.
pub open spec fn predefined_setter_text(
    association: HasOneAssociation,
    structure_ident: Seq<char>,
    fields: Seq<AssociationAttributesStructureField>,
) -> Seq<char> {
    setter_text(
        structure_ident,
        fields,
        association.name@,
        association.name@ + "_id"@,
        "__resource_id : "@ + link_id_type_text(association),
        ":: fabriko :: HasOneCreated :: new (__resource_id)"@,
        has_one_default_text(association),
        ":: fabriko :: HasOneCreated < "@ + link_id_type_text(association) + " >"@,
    )
}

/// The setter `<name>`, which holds a factory made by a function from a default one.
pub open spec fn factory_setter_text(
    association: HasOneAssociation,
    structure_ident: Seq<char>,
    fields: Seq<AssociationAttributesStructureField>,
) -> Seq<char> {
    let factory = association.for_factory@;
    setter_text(
        structure_ident,
        fields,
        association.name@,
        association.name@ + " < FUNC : FnOnce ("@ + factory + ") -> "@ + factory + " >"@,
        "__func : FUNC"@,
        ":: fabriko :: HasOneToCreate :: new (__func (Default :: default ()))"@,
        has_one_default_text(association),
        ":: fabriko :: HasOneToCreate < "@ + factory + " >"@,
    )
}

impl HasOneAssociation {
    pub fn duplicate(&self) -> (out: Self)
        ensures
            out == *self,
    {
        HasOneAssociation { for_factory: self.for_factory.clone(), name: self.name.clone(), link: self.link.clone() }
    }

    fn default_type(&self) -> (out: String)
        ensures
            out@ == has_one_default_text(*self),
    {
        let mut out = String::new();
        out.append(":: fabriko :: HasOneDefault < ");
        out.append(self.for_factory.as_str());
        out.append(" >");
        assert(out@ =~= has_one_default_text(*self));
        out
    }
}

impl<'a> AssociationsCodegen for PredefinedSetter<'a> {
    open spec fn setters_text(&self, structure_ident: Seq<char>, fields: Seq<AssociationAttributesStructureField>) -> Seq<char> {
        predefined_setter_text(*self.0, structure_ident, fields)
    }

    fn derive_setters(&self, structure: &AssociationAttributesStructure) -> (out: String) {
        let association = self.0;
        let hash = fnv_hash_of(association.link.as_str());
        let mut id_type = String::new();
        id_type.append("< ");
        id_type.append(association.for_factory.as_str());
        id_type.append(" as :: fabriko :: BelongingToLink < ");
        push_u64_literal(&mut id_type, hash);
        id_type.append(" >> :: ID");
        assert(id_type@ =~= link_id_type_text(*association));
        let mut setter_fn = association.name.clone();
        setter_fn.append("_id");
        let mut argument = String::new();
        argument.append("__resource_id : ");
        argument.append(id_type.as_str());
        let mut create = String::new();
        create.append(":: fabriko :: HasOneCreated :: new (__resource_id)");
        let mut set_type = String::new();
        set_type.append(":: fabriko :: HasOneCreated < ");
        set_type.append(id_type.as_str());
        set_type.append(" >");
        let setter = AssociationsSetter {
            field_ident: association.name.clone(),
            setter_fn,
            argument_of_setter: argument,
            create_set_type_of_association: create,
            default_type_of_association: association.default_type(),
            set_type_of_association: set_type,
        };
        assert(setter.argument_of_setter@ =~= "__resource_id : "@ + link_id_type_text(*association));
        assert(setter.set_type_of_association@ =~= ":: fabriko :: HasOneCreated < "@ + link_id_type_text(*association) + " >"@);
        setter.derive_setter(structure)
    }
}

impl<'a> AssociationsCodegen for FactorySetter<'a> {
    open spec fn setters_text(&self, structure_ident: Seq<char>, fields: Seq<AssociationAttributesStructureField>) -> Seq<char> {
        factory_setter_text(*self.0, structure_ident, fields)
    }

    fn derive_setters(&self, structure: &AssociationAttributesStructure) -> (out: String) {
        let association = self.0;
        let factory = &association.for_factory;
        let mut setter_fn = association.name.clone();
        setter_fn.append(" < FUNC : FnOnce (");
        setter_fn.append(factory.as_str());
        setter_fn.append(") -> ");
        setter_fn.append(factory.as_str());
        setter_fn.append(" >");
        let mut argument = String::new();
        argument.append("__func : FUNC");
        let mut create = String::new();
        create.append(":: fabriko :: HasOneToCreate :: new (__func (Default :: default ()))");
        let mut set_type = String::new();
        set_type.append(":: fabriko :: HasOneToCreate < ");
        set_type.append(factory.as_str());
        set_type.append(" >");
        let setter = AssociationsSetter {
            field_ident: association.name.clone(),
            setter_fn,
            argument_of_setter: argument,
            create_set_type_of_association: create,
            default_type_of_association: association.default_type(),
            set_type_of_association: set_type,
        };
        assert(setter.setter_fn@ =~= association.name@ + " < FUNC : FnOnce ("@ + factory@ + ") -> "@ + factory@ + " >"@);
        assert(setter.set_type_of_association@ =~= ":: fabriko :: HasOneToCreate < "@ + factory@ + " >"@);
        setter.derive_setter(structure)
    }
}

impl AssociationsCodegen for HasOneAssociation {
    /// The setter of an existing identifier, then the setter of a factory.
    open spec fn setters_text(&self, structure_ident: Seq<char>, fields: Seq<AssociationAttributesStructureField>) -> Seq<char> {
        sep(predefined_setter_text(*self, structure_ident, fields), factory_setter_text(*self, structure_ident, fields))
    }

    fn derive_setters(&self, structure: &AssociationAttributesStructure) -> (out: String) {
        let mut out = PredefinedSetter(self).derive_setters(structure);
        let factory = FactorySetter(self).derive_setters(structure);
        push_stream(&mut out, factory.as_str());
        out
    }
}

} // verus!
