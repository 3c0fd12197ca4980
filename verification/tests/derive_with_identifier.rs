use fabriko::codegen::identifier::{
    do_derive_with_identifier, with_identifier_impl, WithIdentifierDeriveInput, WithIdentifierField,
};

fn field(ident: &str, ty: &str, is_identifier: bool) -> WithIdentifierField {
    WithIdentifierField { ident: ident.to_string(), ty: ty.to_string(), is_identifier }
}

#[test]
fn should_derive_with_identifier_trait_for_struct() {
    let input = WithIdentifierDeriveInput {
        ident: "Person".to_string(),
        fields: vec![field("id", "i32", true), field("age", "u8", false), field("name", "String", false)],
    };
    let derived_impl = do_derive_with_identifier(&input).expect("Failed to derive implementation");
    let expected_impl = "impl :: fabriko :: WithIdentifier for Person { type ID = i32 ; fn extract_id (& self) -> Self :: ID { self . id } }";
    assert_eq!(derived_impl.to_string(), expected_impl.to_string());
}

#[test]
fn should_derive_with_identifier_trait_for_struct_composite_key() {
    let input = WithIdentifierDeriveInput {
        ident: "Person".to_string(),
        fields: vec![field("email", "i32", false), field("age", "u8", true), field("name", "String", true)],
    };
    let derived_impl = do_derive_with_identifier(&input).expect("Failed to derive implementation");
    let expected_impl = "impl :: fabriko :: WithIdentifier for Person { type ID = (u8 , String ,) ; fn extract_id (& self) -> Self :: ID { (self . age , self . name ,) } }";
    assert_eq!(derived_impl.to_string(), expected_impl.to_string());
}

#[test]
fn with_identifier_without_identifier_fields_uses_unit() {
    let input = WithIdentifierDeriveInput {
        ident: "Tag".to_string(),
        fields: vec![field("label", "String", false)],
    };
    let code = with_identifier_impl(&input);
    assert_eq!(
        code,
        "impl :: fabriko :: WithIdentifier for Tag { type ID = () ; fn extract_id (& self) -> Self :: ID { () } }"
    );
    let tokens = do_derive_with_identifier(&input).unwrap();
    assert_eq!(tokens.to_string(), code);
}
