use fabriko::codegen::bundles::{do_derive_bundle, BundleAttribute, BundleDeriveField, BundleDeriveInput};
use fabriko::codegen::fabriko::attribute::FabrikoDeriveAttribute;
use fabriko::codegen::fabriko::{do_derive_fabriko, FabrikoDeriveInput};
use fabriko::codegen::factories::associations::belongs_to::BelongsToAssociation;
use fabriko::codegen::factories::associations::has_many::HasManyAssociation;
use fabriko::codegen::factories::associations::has_one::HasOneAssociation;
use fabriko::codegen::factories::field::FactoryDeriveField;
use fabriko::codegen::factories::{do_derive_factory, FactoryDeriveInput};
use fabriko::codegen::mixins::{do_derive_mixin, MixinDeriveField, MixinDeriveInput};
use fabriko::codegen::tokens::{derive_result, tokens_of, DeriveError};
use std::hash::{Hash, Hasher};

fn s(text: &str) -> String {
    text.to_string()
}

fn relexed(code: &str) -> String {
    code.parse::<proc_macro2::TokenStream>().expect("generated code lexes").to_string()
}

fn field(ident: &str, ty: &str) -> FactoryDeriveField {
    FactoryDeriveField {
        ident: s(ident),
        ty: s(ty),
        mixin: false,
        into: false,
        dependant: None,
        belongs_to: None,
        default: None,
    }
}

#[test]
fn should_derive_factory_fn_for_wrapper() {
    let fabriko_derive_attribute = FabrikoDeriveAttribute { factory: s("MyFactory"), function: s("my_factory") };
    let expected = "pub fn my_factory < FF : :: fabriko :: Factory < MyContext > , CB : FnOnce (MyFactory) -> FF > (& mut self , callback : CB ,) -> < FF as :: fabriko :: Factory < MyContext >> :: Output { self . 0 . factory (callback) }";
    let actual = fabriko_derive_attribute.derive_factory_fn_for_wrapper(&s("MyContext"));
    assert_eq!(expected.to_string(), actual.to_string());
    assert_eq!(relexed(&actual), actual);
}

#[test]
fn mixin_trait_has_a_setter_per_field() {
    let input = MixinDeriveInput {
        ident: s("Address"),
        fields: vec![
            MixinDeriveField { ident: s("street"), ty: s("String"), into: false },
            MixinDeriveField { ident: s("city"), ty: s("Option < String >"), into: false },
        ],
    };
    let expected = EXPECTED_MIXIN;
    let code = input.derive_mixin_trait_definition_and_impl();
    assert_eq!(code, expected);
    assert_eq!(do_derive_mixin(&input).unwrap().to_string(), expected);
}

#[test]
fn bundle_creates_fields_with_their_customisations() {
    let input = BundleDeriveInput {
        ident: s("TodoBundle"),
        fields: vec![
            BundleDeriveField {
                ident: s("user"),
                ty: s("User"),
                factory: s("UserFactory"),
                attributes: vec![BundleAttribute { method: s("name"), expr: s("\"Olivier\"") }],
            },
            BundleDeriveField {
                ident: s("todo"),
                ty: s("Todo"),
                factory: s("TodoFactory"),
                attributes: vec![
                    BundleAttribute { method: s("title"), expr: s("\"Buy milk\"") },
                    BundleAttribute { method: s("done"), expr: s("true") },
                ],
            },
        ],
    };
    let expected = EXPECTED_BUNDLE;
    assert_eq!(input.derive_factory_bundle_implementation(), expected);
    assert_eq!(do_derive_bundle(&input).unwrap().to_string(), expected);
}

#[test]
fn empty_bundle_has_an_empty_where_clause() {
    let input = BundleDeriveInput { ident: s("EmptyBundle"), fields: vec![] };
    let expected = EXPECTED_BUNDLE_EMPTY;
    assert_eq!(input.derive_factory_bundle_implementation(), expected);
    assert_eq!(do_derive_bundle(&input).unwrap().to_string(), expected);
}

#[test]
fn fabriko_wrapper_exposes_each_factory() {
    let input = FabrikoDeriveInput {
        ident: s("MyContext"),
        factories: vec![
            FabrikoDeriveAttribute { factory: s("UserFactory"), function: s("user") },
            FabrikoDeriveAttribute { factory: s("crate :: TodoFactory"), function: s("todo") },
        ],
        fabriko_wrapper_name: s("MyFabriko"),
    };
    let expected = EXPECTED_FABRIKO;
    assert_eq!(input.derive_fabriko_wrapper(), expected);
    assert_eq!(do_derive_fabriko(&input).unwrap().to_string(), expected);
}

#[test]
fn fabriko_wrapper_without_factories() {
    let input = FabrikoDeriveInput { ident: s("MyContext"), factories: vec![], fabriko_wrapper_name: s("MyFabriko") };
    let expected = EXPECTED_FABRIKO_EMPTY;
    assert_eq!(input.derive_fabriko_wrapper(), expected);
    assert_eq!(relexed(expected), expected);
}

#[test]
fn factory_derive_handles_every_kind_of_field() {
    let input = FactoryDeriveInput {
        ident: s("Todo"),
        fields: vec![
            field("id", "i32"),
            FactoryDeriveField { into: true, ..field("title", "String") },
            FactoryDeriveField {
                belongs_to: Some(BelongsToAssociation { factory: s("UserFactory") }),
                ..field("user_id", "UserId")
            },
            FactoryDeriveField { dependant: Some(s("title . to_lowercase ()")), ..field("slug", "String") },
            FactoryDeriveField { mixin: true, ..field("address", "Address") },
            FactoryDeriveField { default: Some(s("false")), ..field("done", "bool") },
        ],
        factory_ident: s("TodoFactory"),
        associations_ident: None,
        has_many: vec![],
        has_one: vec![],
    };
    let expected = EXPECTED_FACTORY;
    assert_eq!(input.derive(), expected);
    assert_eq!(do_derive_factory(&input).unwrap().to_string(), expected);
}

#[test]
fn factory_derive_with_related_resources() {
    let input = FactoryDeriveInput {
        ident: s("User"),
        fields: vec![field("id", "i32"), field("name", "String")],
        factory_ident: s("UserFactory"),
        associations_ident: Some(s("UserAssociations")),
        has_many: vec![HasManyAssociation { for_factory: s("TodoFactory"), name: s("todos"), link: s("user_id") }],
        has_one: vec![HasOneAssociation { for_factory: s("ProfileFactory"), name: s("profile"), link: s("user_id") }],
    };
    let expected = EXPECTED_FACTORY_ASSOC;
    assert_eq!(input.derive(), expected);
    assert_eq!(do_derive_factory(&input).unwrap().to_string(), expected);
}

#[test]
fn derive_result_keeps_tokens_and_names_lexing_errors() {
    let tokens = "a + b".parse::<proc_macro2::TokenStream>();
    assert_eq!(derive_result(tokens).unwrap().to_string(), "a + b");
    let failed = "(".parse::<proc_macro2::TokenStream>();
    assert!(matches!(derive_result(failed), Err(DeriveError::InvalidTokens)));
    assert_eq!(tokens_of(&s("x :: y")).unwrap().to_string(), "x :: y");
    assert!(matches!(tokens_of(&s("\"open")), Err(DeriveError::InvalidTokens)));
}

#[test]
fn mixin_field_marked_into_takes_anything_that_converts() {
    let input = MixinDeriveInput {
        ident: s("Creation"),
        fields: vec![
            MixinDeriveField { ident: s("created_at"), ty: s("Instant"), into: false },
            MixinDeriveField { ident: s("email"), ty: s("String"), into: true },
        ],
    };
    assert_eq!(input.derive_mixin_trait_definition_and_impl(), EXPECTED_MIXIN_INTO);
    assert_eq!(do_derive_mixin(&input).unwrap().to_string(), EXPECTED_MIXIN_INTO);
}

const EXPECTED_MIXIN: &str = "pub trait AddressMixin { fn street (self , street : String) -> Self ; fn city (self , city : Option < String >) -> Self ; } impl AddressMixin for Address { fn street (mut self , street : String) -> Self { self . street = street ; self } fn city (mut self , city : Option < String >) -> Self { self . city = city ; self } } impl < T : :: fabriko :: WithMixin < Address >> AddressMixin for T { fn street (self , street : String) -> Self { self . with_mixin (| __mixin | __mixin . street (street)) } fn city (self , city : Option < String >) -> Self { self . with_mixin (| __mixin | __mixin . city (city)) } }";

const EXPECTED_BUNDLE: &str = "impl < CTX : :: fabriko :: FactoryContext > :: fabriko :: FactoryBundle < CTX > for TodoBundle where UserFactory : :: fabriko :: Factory < CTX , Output = User > , TodoFactory : :: fabriko :: Factory < CTX , Output = Todo > , { fn create_bundle (cx : & mut CTX) -> Result < Self , CTX :: Error > { let user = UserFactory :: default () . name (\"Olivier\") . create (cx) ? ; let todo = TodoFactory :: default () . title (\"Buy milk\") . done (true) . create (cx) ? ; Ok (TodoBundle { user , todo , }) } }";

const EXPECTED_BUNDLE_EMPTY: &str = "impl < CTX : :: fabriko :: FactoryContext > :: fabriko :: FactoryBundle < CTX > for EmptyBundle where { fn create_bundle (cx : & mut CTX) -> Result < Self , CTX :: Error > { Ok (EmptyBundle { }) } }";

const EXPECTED_FABRIKO: &str = "# [derive (Debug , Default)] pub struct MyFabriko (:: fabriko :: Fabriko < MyContext >) ; impl MyFabriko { pub fn new (cx : MyContext) -> Self { MyFabriko (:: fabriko :: Fabriko :: new (cx)) } pub fn bundle < B : :: fabriko :: FactoryBundle < MyContext >> (& mut self) -> B { self . 0 . bundle () } pub fn user < FF : :: fabriko :: Factory < MyContext > , CB : FnOnce (UserFactory) -> FF > (& mut self , callback : CB ,) -> < FF as :: fabriko :: Factory < MyContext >> :: Output { self . 0 . factory (callback) } pub fn todo < FF : :: fabriko :: Factory < MyContext > , CB : FnOnce (crate :: TodoFactory) -> FF > (& mut self , callback : CB ,) -> < FF as :: fabriko :: Factory < MyContext >> :: Output { self . 0 . factory (callback) } }";

const EXPECTED_FABRIKO_EMPTY: &str = "# [derive (Debug , Default)] pub struct MyFabriko (:: fabriko :: Fabriko < MyContext >) ; impl MyFabriko { pub fn new (cx : MyContext) -> Self { MyFabriko (:: fabriko :: Fabriko :: new (cx)) } pub fn bundle < B : :: fabriko :: FactoryBundle < MyContext >> (& mut self) -> B { self . 0 . bundle () } }";

const EXPECTED_FACTORY: &str = "pub struct TodoFactory { id : i32 , title : String , user_id : :: fabriko :: BelongsTo < UserFactory , UserId > , slug : String , address : Address , done : bool , } impl Default for TodoFactory { fn default () -> Self { TodoFactory { id : Default :: default () , title : Default :: default () , user_id : Default :: default () , slug : Default :: default () , address : Default :: default () , done : false , } } } impl < CTX : :: fabriko :: FactoryContext > :: fabriko :: Factory < CTX > for TodoFactory where :: fabriko :: BelongsTo < UserFactory , UserId > : :: fabriko :: ResolveDependency < CTX , Output = UserId > , Todo : :: fabriko :: BuildResource < CTX > , { type Output = < Todo as :: fabriko :: BuildResource < CTX >> :: Output ; fn create (self , ctx : & mut CTX) -> Result < Self :: Output , CTX :: Error > { let TodoFactory { id , title , user_id , address , done , .. } = self ; use :: fabriko :: ResolveDependency ; let user_id = user_id . resolve_dependency (ctx) ? ; let slug : String = title . to_lowercase () ; let __resource = Todo { id , title , user_id , slug , address , done , } . build_resource (ctx) ? ; Ok (__resource) } } impl :: fabriko :: WithMixin < Address > for TodoFactory { fn with_mixin < F : FnOnce (Address) -> Address > (mut self , f : F) -> Self { self . address = f (self . address) ; self } } impl TodoFactory { pub fn id (mut self , id : i32) -> Self { self . id = id ; self } pub fn title < T : Into < String >> (mut self , title : T) -> Self { self . title = title . into () ; self } pub fn belonging_to_user_id < F : FnOnce (UserFactory) -> UserFactory > (mut self , f : F) -> Self { self . user_id = :: fabriko :: BelongsTo :: Create (f (Default :: default ())) ; self } pub fn user_id (mut self , id : < Self as :: fabriko :: BelongingToLink < { 16755580016498141567u64 } >> :: ID) -> Self { self . user_id = :: fabriko :: BelongsTo :: Created (id) ; self } pub fn slug (mut self , slug : String) -> Self { self . slug = slug ; self } pub fn done (mut self , done : bool) -> Self { self . done = done ; self } } impl :: fabriko :: BelongingToLink < { 16755580016498141567u64 } > for TodoFactory { type ID = UserId ; fn setter (factory : Self , id : Self :: ID) -> Self { TodoFactory :: user_id (factory , id) } }";

const EXPECTED_FACTORY_ASSOC: &str = "pub struct UserFactory { id : i32 , name : String , } impl Default for UserFactory { fn default () -> Self { UserFactory { id : Default :: default () , name : Default :: default () , } } } impl < CTX : :: fabriko :: FactoryContext > :: fabriko :: Factory < CTX > for UserFactory where User : :: fabriko :: BuildResource < CTX > , { type Output = < User as :: fabriko :: BuildResource < CTX >> :: Output ; fn create (self , ctx : & mut CTX) -> Result < Self :: Output , CTX :: Error > { let UserFactory { id , name , .. } = self ; use :: fabriko :: ResolveDependency ; let __resource = User { id , name , } . build_resource (ctx) ? ; Ok (__resource) } } impl UserFactory { pub fn id (mut self , id : i32) -> Self { self . id = id ; self } pub fn name (mut self , name : String) -> Self { self . name = name ; self } } # [derive (Default)] pub struct UserAssociations < A , B , > { pub todos : A , pub profile : B , } impl :: fabriko :: WithRelatedResources for UserFactory { type DefaultAssociations = UserAssociations < :: fabriko :: HasMany < 16755580016498141567u64 , TodoFactory > , :: fabriko :: HasOneDefault < ProfileFactory > , > ; } impl < RESOURCE , A : :: fabriko :: BelongingTo < RESOURCE > , B : :: fabriko :: BelongingTo < RESOURCE > , > BelongingTo < RESOURCE > for UserAssociations < A , B , > { fn belonging_to (self , __resource : & RESOURCE) -> Self { let UserAssociations { todos , profile , } = self ; let todos = todos . belonging_to (__resource) ; let profile = profile . belonging_to (__resource) ; UserAssociations { todos , profile , } } } impl < B , > UserAssociations < :: fabriko :: HasMany < 16755580016498141567u64 , TodoFactory > , B , > { # [allow (unused_variables)] pub fn with_todos < FUNC : FnOnce (TodoFactory) -> TodoFactory > (self , __func : FUNC ,) -> UserAssociations < :: fabriko :: HasMany < 16755580016498141567u64 , TodoFactory > , B , > { let UserAssociations { todos , profile , } = self ; let todos = todos . with :: < 16755580016498141567u64 , _ > (__func) ; UserAssociations { todos , profile , } } } impl < A , > UserAssociations < A , :: fabriko :: HasOneDefault < ProfileFactory > , > { # [allow (unused_variables)] pub fn profile_id (self , __resource_id : < ProfileFactory as :: fabriko :: BelongingToLink < 16755580016498141567u64 >> :: ID ,) -> UserAssociations < A , :: fabriko :: HasOneCreated < < ProfileFactory as :: fabriko :: BelongingToLink < 16755580016498141567u64 >> :: ID > , > { let UserAssociations { todos , profile , } = self ; let profile = :: fabriko :: HasOneCreated :: new (__resource_id) ; UserAssociations { todos , profile , } } } impl < A , > UserAssociations < A , :: fabriko :: HasOneDefault < ProfileFactory > , > { # [allow (unused_variables)] pub fn profile < FUNC : FnOnce (ProfileFactory) -> ProfileFactory > (self , __func : FUNC ,) -> UserAssociations < A , :: fabriko :: HasOneToCreate < ProfileFactory > , > { let UserAssociations { todos , profile , } = self ; let profile = :: fabriko :: HasOneToCreate :: new (__func (Default :: default ())) ; UserAssociations { todos , profile , } } }";

#[test]
fn factory_derive_without_fields() {
    let input = FactoryDeriveInput {
        ident: s("Empty"),
        fields: vec![],
        factory_ident: s("EmptyFactory"),
        associations_ident: None,
        has_many: vec![],
        has_one: vec![],
    };
    assert_eq!(input.derive(), EXPECTED_EMPTY_FACTORY);
    assert_eq!(do_derive_factory(&input).unwrap().to_string(), EXPECTED_EMPTY_FACTORY);
}

#[test]
fn factory_derive_computes_dependant_attributes() {
    let input = FactoryDeriveInput {
        ident: s("Person"),
        fields: vec![
            FactoryDeriveField { into: true, ..field("name", "String") },
            FactoryDeriveField { dependant: Some(s("name . to_uppercase ()")), ..field("shout", "String") },
        ],
        factory_ident: s("PersonFactory"),
        associations_ident: None,
        has_many: vec![],
        has_one: vec![],
    };
    assert_eq!(input.derive(), EXPECTED_DEPENDANT);
    assert_eq!(do_derive_factory(&input).unwrap().to_string(), EXPECTED_DEPENDANT);
}

#[test]
fn factory_derive_with_two_has_many_associations() {
    let input = FactoryDeriveInput {
        ident: s("Group"),
        fields: vec![field("id", "u32")],
        factory_ident: s("GroupFactory"),
        associations_ident: Some(s("GroupAssociations")),
        has_many: vec![
            HasManyAssociation { for_factory: s("UserFactory"), name: s("members"), link: s("group_id") },
            HasManyAssociation { for_factory: s("TodoFactory"), name: s("todos"), link: s("group_id") },
        ],
        has_one: vec![],
    };
    assert_eq!(input.derive(), EXPECTED_TWO_MANY);
    assert_eq!(do_derive_factory(&input).unwrap().to_string(), EXPECTED_TWO_MANY);
}

#[test]
fn mixin_without_fields() {
    let input = MixinDeriveInput { ident: s("Nothing"), fields: vec![] };
    assert_eq!(input.derive_mixin_trait_definition_and_impl(), EXPECTED_EMPTY_MIXIN);
    assert_eq!(do_derive_mixin(&input).unwrap().to_string(), EXPECTED_EMPTY_MIXIN);
}

#[test]
fn link_hash_is_the_fnv_hash_of_the_link() {
    let association = HasManyAssociation { for_factory: s("TodoFactory"), name: s("todos"), link: s("user_id") };
    assert_eq!(association.link_hash(), 16755580016498141567u64);
    let mut hasher = fnv::FnvHasher::default();
    "user_id".hash(&mut hasher);
    assert_eq!(association.link_hash(), hasher.finish());
    let other = HasManyAssociation { link: s("group_id"), ..association };
    assert_eq!(other.link_hash(), 1702363663876248041u64);
    assert_eq!(other.has_many_type(), ":: fabriko :: HasMany < 1702363663876248041u64 , TodoFactory >");
}

#[test]
fn generated_code_that_does_not_lex_is_refused() {
    let input = MixinDeriveInput { ident: s("Broken ("), fields: vec![] };
    assert!(matches!(do_derive_mixin(&input), Err(DeriveError::InvalidTokens)));
    let bundle = BundleDeriveInput { ident: s("\"unterminated"), fields: vec![] };
    assert!(matches!(do_derive_bundle(&bundle), Err(DeriveError::InvalidTokens)));
}

const EXPECTED_EMPTY_FACTORY: &str = "pub struct EmptyFactory { } impl Default for EmptyFactory { fn default () -> Self { EmptyFactory { } } } impl < CTX : :: fabriko :: FactoryContext > :: fabriko :: Factory < CTX > for EmptyFactory where Empty : :: fabriko :: BuildResource < CTX > , { type Output = < Empty as :: fabriko :: BuildResource < CTX >> :: Output ; fn create (self , ctx : & mut CTX) -> Result < Self :: Output , CTX :: Error > { let EmptyFactory { .. } = self ; use :: fabriko :: ResolveDependency ; let __resource = Empty { } . build_resource (ctx) ? ; Ok (__resource) } } impl EmptyFactory { }";

const EXPECTED_DEPENDANT: &str = "pub struct PersonFactory { name : String , shout : String , } impl Default for PersonFactory { fn default () -> Self { PersonFactory { name : Default :: default () , shout : Default :: default () , } } } impl < CTX : :: fabriko :: FactoryContext > :: fabriko :: Factory < CTX > for PersonFactory where Person : :: fabriko :: BuildResource < CTX > , { type Output = < Person as :: fabriko :: BuildResource < CTX >> :: Output ; fn create (self , ctx : & mut CTX) -> Result < Self :: Output , CTX :: Error > { let PersonFactory { name , .. } = self ; use :: fabriko :: ResolveDependency ; let shout : String = name . to_uppercase () ; let __resource = Person { name , shout , } . build_resource (ctx) ? ; Ok (__resource) } } impl PersonFactory { pub fn name < T : Into < String >> (mut self , name : T) -> Self { self . name = name . into () ; self } pub fn shout (mut self , shout : String) -> Self { self . shout = shout ; self } }";

const EXPECTED_TWO_MANY: &str = "pub struct GroupFactory { id : u32 , } impl Default for GroupFactory { fn default () -> Self { GroupFactory { id : Default :: default () , } } } impl < CTX : :: fabriko :: FactoryContext > :: fabriko :: Factory < CTX > for GroupFactory where Group : :: fabriko :: BuildResource < CTX > , { type Output = < Group as :: fabriko :: BuildResource < CTX >> :: Output ; fn create (self , ctx : & mut CTX) -> Result < Self :: Output , CTX :: Error > { let GroupFactory { id , .. } = self ; use :: fabriko :: ResolveDependency ; let __resource = Group { id , } . build_resource (ctx) ? ; Ok (__resource) } } impl GroupFactory { pub fn id (mut self , id : u32) -> Self { self . id = id ; self } } # [derive (Default)] pub struct GroupAssociations < A , B , > { pub members : A , pub todos : B , } impl :: fabriko :: WithRelatedResources for GroupFactory { type DefaultAssociations = GroupAssociations < :: fabriko :: HasMany < 1702363663876248041u64 , UserFactory > , :: fabriko :: HasMany < 1702363663876248041u64 , TodoFactory > , > ; } impl < RESOURCE , A : :: fabriko :: BelongingTo < RESOURCE > , B : :: fabriko :: BelongingTo < RESOURCE > , > BelongingTo < RESOURCE > for GroupAssociations < A , B , > { fn belonging_to (self , __resource : & RESOURCE) -> Self { let GroupAssociations { members , todos , } = self ; let members = members . belonging_to (__resource) ; let todos = todos . belonging_to (__resource) ; GroupAssociations { members , todos , } } } impl < B , > GroupAssociations < :: fabriko :: HasMany < 1702363663876248041u64 , UserFactory > , B , > { # [allow (unused_variables)] pub fn with_members < FUNC : FnOnce (UserFactory) -> UserFactory > (self , __func : FUNC ,) -> GroupAssociations < :: fabriko :: HasMany < 1702363663876248041u64 , UserFactory > , B , > { let GroupAssociations { members , todos , } = self ; let members = members . with :: < 1702363663876248041u64 , _ > (__func) ; GroupAssociations { members , todos , } } } impl < A , > GroupAssociations < A , :: fabriko :: HasMany < 1702363663876248041u64 , TodoFactory > , > { # [allow (unused_variables)] pub fn with_todos < FUNC : FnOnce (TodoFactory) -> TodoFactory > (self , __func : FUNC ,) -> GroupAssociations < A , :: fabriko :: HasMany < 1702363663876248041u64 , TodoFactory > , > { let GroupAssociations { members , todos , } = self ; let todos = todos . with :: < 1702363663876248041u64 , _ > (__func) ; GroupAssociations { members , todos , } } }";

const EXPECTED_EMPTY_MIXIN: &str = "pub trait NothingMixin { } impl NothingMixin for Nothing { } impl < T : :: fabriko :: WithMixin < Nothing >> NothingMixin for T { }";

const EXPECTED_MIXIN_INTO: &str = "pub trait CreationMixin { fn created_at (self , created_at : Instant) -> Self ; fn email < V : Into < String >> (self , email : V) -> Self ; } impl CreationMixin for Creation { fn created_at (mut self , created_at : Instant) -> Self { self . created_at = created_at ; self } fn email < V : Into < String >> (mut self , email : V) -> Self { self . email = email . into () ; self } } impl < T : :: fabriko :: WithMixin < Creation >> CreationMixin for T { fn created_at (self , created_at : Instant) -> Self { self . with_mixin (| __mixin | __mixin . created_at (created_at)) } fn email < V : Into < String >> (self , email : V) -> Self { self . with_mixin (| __mixin | __mixin . email (email)) } }";
