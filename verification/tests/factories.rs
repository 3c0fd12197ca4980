use fabriko::associations::default::DefaultAssociation;
use fabriko::associations::has_many::HasMany;
use fabriko::associations::may_belong_to::MayBelongTo;
use fabriko::{
    AppendTuple, BelongingTo, BelongingToLink, BelongsTo, Fabriko, Factory, FactoryBelongingTo, FactoryBundle,
    FactoryContext, FactoryWithResources, HasOneCreated, HasOneDefault, HasOneToCreate, ResolveDependency,
    WithIdentifier, WithRelatedResources,
};

#[derive(Debug, PartialEq)]
struct DbError(String);

impl std::fmt::Display for DbError {
    fn fmt(&self, f: &mut std::fmt::Formatter<'_>) -> std::fmt::Result {
        f.write_str("db error: ")?;
        f.write_str(&self.0)
    }
}

impl std::error::Error for DbError {}

#[derive(Debug, Default)]
struct Db {
    next_id: u32,
    log: Vec<String>,
    fail_on: Option<String>,
}

impl FactoryContext for Db {
    type Error = DbError;
}

#[derive(Debug, Clone, PartialEq)]
struct User {
    id: u32,
    name: String,
}

impl WithIdentifier for User {
    type ID = u32;
    fn extract_id(&self) -> u32 {
        self.id
    }
}

#[derive(Debug, Clone, PartialEq)]
struct Todo {
    id: u32,
    title: String,
    user_id: u32,
}

#[derive(Debug, Default, Clone)]
struct UserFactory {
    name: String,
}

impl Factory<Db> for UserFactory {
    type Output = User;
    fn create(self, ctx: &mut Db) -> Result<User, DbError> {
        if ctx.fail_on.as_deref() == Some(self.name.as_str()) {
            return Err(DbError(self.name));
        }
        ctx.next_id += 1;
        ctx.log.push(format!("user {}", self.name));
        Ok(User { id: ctx.next_id, name: self.name })
    }
}

#[derive(Debug, Default, Clone)]
struct TodoFactory {
    title: String,
    user_id: u32,
}

impl BelongingToLink<7> for TodoFactory {
    type ID = u32;
    fn setter(factory: Self, id: u32) -> Self {
        TodoFactory { user_id: id, ..factory }
    }
}

impl Factory<Db> for TodoFactory {
    type Output = Todo;
    fn create(self, ctx: &mut Db) -> Result<Todo, DbError> {
        if ctx.fail_on.as_deref() == Some(self.title.as_str()) {
            return Err(DbError(self.title));
        }
        ctx.next_id += 1;
        ctx.log.push(format!("todo {} of {}", self.title, self.user_id));
        Ok(Todo { id: ctx.next_id, title: self.title, user_id: self.user_id })
    }
}

fn user(name: &str) -> UserFactory {
    UserFactory { name: name.to_string() }
}

#[test]
fn tuple_of_factories_creates_in_order() {
    let mut db = Db::default();
    let (a, b, c) = (user("a"), user("b"), user("c")).create(&mut db).unwrap();
    assert_eq!((a.id, b.id, c.id), (1, 2, 3));
    assert_eq!(db.log, vec!["user a", "user b", "user c"]);
}

#[test]
fn tuple_of_factories_stops_at_first_error() {
    let mut db = Db { fail_on: Some("b".to_string()), ..Db::default() };
    let out = (user("a"), user("b"), user("c")).create(&mut db);
    assert_eq!(out, Err(DbError("b".to_string())));
    assert_eq!(db.log, vec!["user a"]);
}

fn todo(title: &str) -> TodoFactory {
    TodoFactory { title: title.to_string(), user_id: 0 }
}

impl WithRelatedResources for UserFactory {
    type DefaultAssociations = HasMany<7, TodoFactory>;
}

#[test]
fn tuple_of_two_factories_creates_both() {
    let mut db = Db::default();
    let (a, t) = (user("a"), todo("t")).create(&mut db).unwrap();
    assert_eq!(a, User { id: 1, name: "a".to_string() });
    assert_eq!(t, Todo { id: 2, title: "t".to_string(), user_id: 0 });
}

#[test]
fn tuple_whose_first_factory_fails_creates_nothing() {
    let mut db = Db { fail_on: Some("a".to_string()), ..Db::default() };
    let out = (user("a"), user("b")).create(&mut db);
    assert_eq!(out, Err(DbError("a".to_string())));
    assert!(db.log.is_empty());
    assert_eq!(db.next_id, 0);
}

#[test]
fn boxed_factory_creates_as_the_factory() {
    let mut db = Db::default();
    let created = Box::new(user("boxed")).create(&mut db).unwrap();
    assert_eq!(created, User { id: 1, name: "boxed".to_string() });
}

#[test]
fn append_tuple_grows_without_nesting() {
    let one = ().append(1u8);
    let two = one.append("two");
    assert_eq!(two, (1u8, "two"));
    let three = two.append(3i64);
    assert_eq!(three, (1u8, "two", 3i64));
    let four = three.append('4');
    assert_eq!(four, (1u8, "two", 3i64, '4'));
}

#[test]
fn unit_tuple_creates_as_its_factory() {
    let mut db = Db::default();
    let created = ().append(user("solo")).create(&mut db).unwrap();
    assert_eq!(created, User { id: 1, name: "solo".to_string() });
    let (a, b) = ().append(user("a")).append(user("b")).create(&mut db).unwrap();
    assert_eq!((a.id, b.id), (2, 3));
}

#[test]
fn belongs_to_create_resolves_to_the_created_identifier() {
    let mut db = Db { next_id: 41, ..Db::default() };
    let id = BelongsTo::<UserFactory, u32>::Create(user("owner")).resolve_dependency(&mut db).unwrap();
    assert_eq!(id, 42);
    assert_eq!(db.log, vec!["user owner"]);
}

#[test]
fn belongs_to_created_resolves_without_creating() {
    let mut db = Db::default();
    let id = BelongsTo::<UserFactory, u32>::Created(9).resolve_dependency(&mut db).unwrap();
    assert_eq!(id, 9);
    assert!(db.log.is_empty());
    assert_eq!(db.next_id, 0);
}

#[test]
fn belongs_to_create_hands_back_the_error() {
    let mut db = Db { fail_on: Some("owner".to_string()), ..Db::default() };
    let out = BelongsTo::<UserFactory, u32>::Create(user("owner")).resolve_dependency(&mut db);
    assert_eq!(out, Err(DbError("owner".to_string())));
}

#[test]
fn belongs_to_defaults_to_a_default_factory() {
    let mut db = Db::default();
    let dependency: BelongsTo<UserFactory, u32> = Default::default();
    assert!(matches!(dependency, BelongsTo::Create(_)));
    assert_eq!(dependency.resolve_dependency(&mut db), Ok(1));
    assert_eq!(db.log, vec!["user "]);
}

#[test]
fn may_belong_to_resolves_each_variant() {
    let mut db = Db::default();
    let none: MayBelongTo<UserFactory, u32> = Default::default();
    assert_eq!(none.resolve_dependency(&mut db), Ok(None));
    assert!(db.log.is_empty());
    let created = MayBelongTo::<UserFactory, u32>::Created(5).resolve_dependency(&mut db);
    assert_eq!(created, Ok(Some(5)));
    assert!(db.log.is_empty());
    let made = MayBelongTo::<UserFactory, u32>::Create(user("x")).resolve_dependency(&mut db);
    assert_eq!(made, Ok(Some(1)));
    db.fail_on = Some("y".to_string());
    let failed = MayBelongTo::<UserFactory, u32>::Create(user("y")).resolve_dependency(&mut db);
    assert_eq!(failed, Err(DbError("y".to_string())));
}

#[test]
fn has_one_created_hands_back_its_identifier() {
    let mut db = Db::default();
    let created = HasOneCreated::new(12u32);
    assert_eq!(Factory::<Db>::create(created, &mut db), Ok(12));
    assert!(db.log.is_empty());
    let attached = HasOneCreated::new(13u32).belonging_to(&User { id: 1, name: "u".to_string() });
    assert_eq!(Factory::<Db>::create(attached, &mut db), Ok(13));
}

#[test]
fn has_one_to_create_hands_back_the_new_identifier() {
    let mut db = Db { next_id: 6, ..Db::default() };
    let to_create = HasOneToCreate::new(user("friend"));
    assert_eq!(to_create.create(&mut db), Ok(7));
    assert_eq!(db.log, vec!["user friend"]);
    db.fail_on = Some("enemy".to_string());
    assert_eq!(HasOneToCreate::new(user("enemy")).create(&mut db), Err(DbError("enemy".to_string())));
}

#[test]
fn has_one_default_creates_a_default_resource() {
    let mut db = Db::default();
    let default: HasOneDefault<UserFactory> = Default::default();
    assert_eq!(default.create(&mut db), Ok(User { id: 1, name: String::new() }));
}

#[derive(Debug, Default)]
struct ProfileFactory {
    user_id: u32,
}

impl BelongingTo<User> for ProfileFactory {
    fn belonging_to(self, resource: &User) -> Self {
        ProfileFactory { user_id: resource.id }
    }
}

impl Factory<Db> for ProfileFactory {
    type Output = u32;
    fn create(self, ctx: &mut Db) -> Result<u32, DbError> {
        ctx.log.push(format!("profile of {}", self.user_id));
        Ok(self.user_id)
    }
}

#[test]
fn default_association_creates_its_factory() {
    let mut db = Db::default();
    let default: DefaultAssociation<ProfileFactory> = Default::default();
    let linked = default.belonging_to(&User { id: 3, name: "u".to_string() });
    assert_eq!(linked.create(&mut db), Ok(3));
    assert_eq!(db.log, vec!["profile of 3"]);
}

#[test]
fn has_one_default_and_to_create_attach_their_factory() {
    let mut db = Db::default();
    let owner = User { id: 8, name: "o".to_string() };
    let default: HasOneDefault<ProfileFactory> = Default::default();
    assert_eq!(default.belonging_to(&owner).create(&mut db), Ok(8));
    let to_create = HasOneToCreate::new(ProfileFactory::default()).belonging_to(&owner);
    assert!(format!("{:?}", to_create).contains("user_id: 8"));
}

#[test]
fn has_many_with_adds_factories_in_order() {
    let mut db = Db::default();
    let many = HasMany::<7, TodoFactory>::default()
        .with::<7, _>(|t| TodoFactory { title: "first".to_string(), ..t })
        .with::<7, _>(|t| TodoFactory { title: "second".to_string(), ..t });
    let created = many.create(&mut db).unwrap();
    assert_eq!(created.len(), 2);
    assert_eq!(created[0].title, "first");
    assert_eq!(created[1].title, "second");
    assert_eq!(db.log, vec!["todo first of 0", "todo second of 0"]);
}

#[test]
fn has_many_without_factories_creates_nothing() {
    let mut db = Db::default();
    let created = HasMany::<7, TodoFactory>::default().create(&mut db).unwrap();
    assert!(created.is_empty());
    assert!(db.log.is_empty());
}

#[test]
fn has_many_stops_at_first_error() {
    let mut db = Db { fail_on: Some("b".to_string()), ..Db::default() };
    let many = HasMany::<7, TodoFactory>::default()
        .with::<7, _>(|t| TodoFactory { title: "a".to_string(), ..t })
        .with::<7, _>(|t| TodoFactory { title: "b".to_string(), ..t })
        .with::<7, _>(|t| TodoFactory { title: "c".to_string(), ..t });
    assert_eq!(many.create(&mut db), Err(DbError("b".to_string())));
    assert_eq!(db.log, vec!["todo a of 0"]);
}

#[test]
fn has_many_links_every_factory_to_the_resource() {
    let mut db = Db::default();
    let owner = User { id: 77, name: "owner".to_string() };
    let many = HasMany::<7, TodoFactory>::default()
        .with::<7, _>(|t| TodoFactory { title: "a".to_string(), ..t })
        .with::<7, _>(|t| TodoFactory { title: "b".to_string(), ..t });
    let created = many.belonging_to(&owner).create(&mut db).unwrap();
    assert_eq!(created.iter().map(|t| t.user_id).collect::<Vec<_>>(), vec![77, 77]);
}

#[test]
fn factory_with_resources_creates_the_resource_then_its_related_ones() {
    let mut db = Db::default();
    let factory = user("owner").with_related_resources(|todos| {
        todos
            .with::<7, _>(|t| TodoFactory { title: "x".to_string(), ..t })
            .with::<7, _>(|t| TodoFactory { title: "y".to_string(), ..t })
    });
    assert_eq!(factory.factory.name, "owner");
    let (owner, todos) = factory.create(&mut db).unwrap();
    assert_eq!(owner.id, 1);
    assert_eq!(todos.iter().map(|t| (t.id, t.user_id)).collect::<Vec<_>>(), vec![(2, 1), (3, 1)]);
    assert_eq!(db.log, vec!["user owner", "todo x of 1", "todo y of 1"]);
}

#[test]
fn factory_with_resources_creates_nothing_related_when_the_resource_fails() {
    let mut db = Db { fail_on: Some("owner".to_string()), ..Db::default() };
    let factory = FactoryWithResources {
        factory: user("owner"),
        resources: HasMany::<7, TodoFactory>::default().with::<7, _>(|t| TodoFactory { title: "x".to_string(), ..t }),
    };
    assert_eq!(factory.create(&mut db), Err(DbError("owner".to_string())));
    assert!(db.log.is_empty());
}

#[test]
fn factory_with_resources_hands_back_a_related_error() {
    let mut db = Db { fail_on: Some("x".to_string()), ..Db::default() };
    let factory = FactoryWithResources {
        factory: user("owner"),
        resources: HasMany::<7, TodoFactory>::default().with::<7, _>(|t| TodoFactory { title: "x".to_string(), ..t }),
    };
    assert_eq!(factory.create(&mut db), Err(DbError("x".to_string())));
    assert_eq!(db.log, vec!["user owner"]);
}

#[test]
fn factory_belonging_to_sets_the_link() {
    let mut db = Db::default();
    let linked = FactoryBelongingTo::<7, _> { factory: todo("t") }.belonging_to(&User { id: 5, name: "u".to_string() });
    assert_eq!(linked.factory.user_id, 5);
    assert_eq!(linked.create(&mut db), Ok(Todo { id: 1, title: "t".to_string(), user_id: 5 }));
}

#[derive(Debug)]
struct Pair {
    first: User,
    second: User,
}

impl FactoryBundle<Db> for Pair {
    fn create_bundle(cx: &mut Db) -> Result<Self, DbError> {
        let first = user("first").create(cx)?;
        let second = user("second").create(cx)?;
        Ok(Pair { first, second })
    }
}

#[test]
fn fabriko_new_then_into_inner_gives_back_the_context() {
    let db = Db { next_id: 3, log: vec!["x".to_string()], fail_on: None };
    let ctx = Fabriko::new(db).into_inner();
    assert_eq!(ctx.next_id, 3);
    assert_eq!(ctx.log, vec!["x"]);
}

#[test]
fn fabriko_creates_bundles() {
    let mut fabriko = Fabriko::new(Db::default());
    let pair: Pair = fabriko.bundle();
    assert_eq!((pair.first.id, pair.second.id), (1, 2));
    let again = fabriko.try_bundle::<Pair>().unwrap();
    assert_eq!((again.first.id, again.second.id), (3, 4));
    assert_eq!(fabriko.into_inner().log.len(), 4);
}

#[test]
fn fabriko_try_bundle_hands_back_the_error() {
    let mut fabriko = Fabriko::new(Db { fail_on: Some("second".to_string()), ..Db::default() });
    let out = fabriko.try_bundle::<Pair>();
    assert!(matches!(out, Err(DbError(ref name)) if name == "second"));
}

#[test]
fn fabriko_creates_with_a_customised_factory() {
    let mut fabriko = Fabriko::new(Db::default());
    let created = fabriko.factory(|f: UserFactory| UserFactory { name: "custom".to_string(), ..f });
    assert_eq!(created, User { id: 1, name: "custom".to_string() });
    let tried = fabriko.try_factory(|f: TodoFactory| TodoFactory { title: "t".to_string(), ..f });
    assert_eq!(tried, Ok(Todo { id: 2, title: "t".to_string(), user_id: 0 }));
}

#[test]
fn fabriko_try_factory_hands_back_the_error() {
    let mut fabriko = Fabriko::new(Db { fail_on: Some("bad".to_string()), ..Db::default() });
    let out = fabriko.try_factory(|f: UserFactory| UserFactory { name: "bad".to_string(), ..f });
    assert_eq!(out, Err(DbError("bad".to_string())));
}
