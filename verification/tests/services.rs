use shop_domain::domain::entities::{Category, Characteristic, Product, User};
use shop_domain::domain::repositories::ProductRepository;
use shop_domain::domain::services::{CategoryService, ProductService, UserService};
use shop_domain::domain::values::{
    CategoryId, CategoryName, Mail, Password, ProductId, ProductName, ProductPrice, UserId,
    UserName, ValueInto,
};
use shop_domain::error::AppError;
use shop_domain::infrastructure::memory::{
    CategoryRepositoryImpl, MemoryDb, ProductRepositoryImpl, UserRepositoryImpl,
};
use shop_domain::service::{CategoryServiceImpl, ProductServiceImpl, UserServiceImpl};

fn product(name: &str, price: i32) -> Product {
    Product::new(
        ProductId::try_from(0).unwrap(),
        ProductName::try_from(String::from(name)).unwrap(),
        ProductPrice::try_from(price).unwrap(),
        Some(Category::new(
            CategoryId::try_from(1).unwrap(),
            CategoryName::try_from(String::from("文房具")).unwrap(),
        )),
    )
}

#[test]
fn category_service_lookup() {
    let mut db = MemoryDb::new();
    db.add_category(Category::new(
        CategoryId::try_from(1).unwrap(),
        CategoryName::try_from(String::from("文房具")).unwrap(),
    ));
    db.add_category(Category::new(
        CategoryId::try_from(2).unwrap(),
        CategoryName::try_from(String::from("雑貨")).unwrap(),
    ));
    let service = CategoryServiceImpl::new(CategoryRepositoryImpl::new());
    let all = service.all(&db).unwrap();
    assert_eq!(all.len(), 2);
    assert_eq!(all[0].name.value(), "文房具");
    let found = service.by_id(&db, &CategoryId::try_from(2).unwrap()).unwrap();
    assert_eq!(found.name.value(), "雑貨");
    let missing = service.by_id(&db, &CategoryId::try_from(3).unwrap());
    assert!(matches!(missing, Err(AppError::SearchError(_))));
}

#[test]
fn product_exists_inverted_contract() {
    let mut db = MemoryDb::new();
    let service = ProductServiceImpl::new(ProductRepositoryImpl::new());
    let name = ProductName::try_from(String::from("水性ボールペン(黒)")).unwrap();
    // Nothing stored yet: success means "not registered".
    assert!(service.exists_by_name(&db, &name).is_ok());
    service.register(&mut db, &product("水性ボールペン(黒)", 120)).unwrap();
    let conflict = service.exists_by_name(&db, &name);
    assert!(matches!(conflict, Err(AppError::RegisterError(_))));
    // A prefix of the stored name is a different exact name.
    let prefix = ProductName::try_from(String::from("水性ボールペン")).unwrap();
    assert!(service.exists_by_name(&db, &prefix).is_ok());
}

#[test]
fn product_search_by_keyword() {
    let mut db = MemoryDb::new();
    let service = ProductServiceImpl::new(ProductRepositoryImpl::new());
    service.register(&mut db, &product("ワイヤレスマウス", 2800)).unwrap();
    service.register(&mut db, &product("キーボード", 3500)).unwrap();
    service.register(&mut db, &product("マウスパッド", 500)).unwrap();
    let missing = service.by_keyword(
        &db,
        &ProductName::try_from(String::from("nonexistent-substr")).unwrap(),
    );
    assert!(matches!(missing, Err(AppError::SearchError(_))));
    let found = service
        .by_keyword(&db, &ProductName::try_from(String::from("マウス")).unwrap())
        .unwrap();
    assert_eq!(found.len(), 2);
    assert_eq!(found[0].name.value(), "ワイヤレスマウス");
    assert_eq!(found[1].name.value(), "マウスパッド");
    // Ascending store-assigned identifiers.
    assert!(found[0].get().value() < found[1].get().value());
}

#[test]
fn product_register_assigns_ascending_ids() {
    let mut db = MemoryDb::new();
    let repository = ProductRepositoryImpl::new();
    let first = repository.insert(&mut db, &product("ノート", 180)).unwrap();
    let second = repository.insert(&mut db, &product("消しゴム", 90)).unwrap();
    assert_eq!(first.get().value(), 1);
    assert_eq!(second.get().value(), 2);
    assert_eq!(first.name.value(), "ノート");
    assert_eq!(first.price.value(), 180);
}

fn stored_user(name: &str, raw_password: &str) -> User {
    // Hash once through the domain constructor, then rebuild as the store
    // would, keeping the hashed form.
    let fresh = User::new(
        UserName::try_from(String::from(name)).unwrap(),
        Password::try_from(String::from(raw_password)).unwrap(),
        Mail::try_from(String::from("user001@sample.com")).unwrap(),
    )
    .unwrap();
    User::rebuilding(
        UserId::try_from(String::from("stored-001")).unwrap(),
        UserName::try_from(String::from(name)).unwrap(),
        Password::try_from(fresh.password.value()).unwrap(),
        Mail::try_from(String::from("user001@sample.com")).unwrap(),
    )
}

fn candidate(name: &str, raw_password: &str) -> User {
    User::new(
        UserName::try_from(String::from(name)).unwrap(),
        Password::try_from(String::from(raw_password)).unwrap(),
        Mail::try_from(String::from("dummy")).unwrap(),
    )
    .unwrap()
}

#[test]
fn authenticate_matches_hashes() {
    let mut db = MemoryDb::new();
    db.add_user(stored_user("user001", "j2hcn6sU"));
    let service = UserServiceImpl::new(UserRepositoryImpl::new());
    let granted = service.authenticate(&db, &candidate("user001", "j2hcn6sU")).unwrap();
    assert_eq!(granted.get().value(), "stored-001");
    let wrong = service.authenticate(&db, &candidate("user001", "wrong-pw"));
    assert!(matches!(wrong, Err(AppError::AuthenticateError(_))));
    let unknown = service.authenticate(&db, &candidate("nobody", "j2hcn6sU"));
    assert!(matches!(unknown, Err(AppError::AuthenticateError(_))));
}

#[test]
fn user_register_returns_the_entity() {
    let mut db = MemoryDb::new();
    let service = UserServiceImpl::new(UserRepositoryImpl::new());
    let user = stored_user("user002", "j2hcn6sU");
    let registered = service.register(&mut db, &user).unwrap();
    assert_eq!(registered.get().value(), "stored-001");
    let found = service.authenticate(&db, &candidate("user002", "j2hcn6sU")).unwrap();
    assert_eq!(found.user_name.value(), "user002");
}
