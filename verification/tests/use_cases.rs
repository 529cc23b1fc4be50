use shop_domain::application::app_service::{
    AuthenticateAppService, ProductRegisterAppService, ProductSearchAppService,
};
use shop_domain::application::use_cases::{
    AuthenticateAppServiceImpl, ProductRegisterAppServiceImpl, ProductSearchAppServiceImpl,
};
use shop_domain::domain::entities::{Category, User};
use shop_domain::domain::services::ProductService;
use shop_domain::domain::values::{
    CategoryId, CategoryName, Mail, Password, ProductName, UserId, UserName, ValueInto,
};
use shop_domain::error::AppError;
use shop_domain::infrastructure::memory::{
    CategoryRepositoryImpl, MemoryDb, ProductRepositoryImpl, UserRepositoryImpl,
};
use shop_domain::presentation::forms::{LoginForm, ProductRegisterForm, ProductSearchForm};
use shop_domain::service::{CategoryServiceImpl, ProductServiceImpl, UserServiceImpl};

fn seeded_db() -> MemoryDb {
    let mut db = MemoryDb::new();
    db.add_category(Category::new(
        CategoryId::try_from(1).unwrap(),
        CategoryName::try_from(String::from("文房具")).unwrap(),
    ));
    db.add_category(Category::new(
        CategoryId::try_from(2).unwrap(),
        CategoryName::try_from(String::from("雑貨")).unwrap(),
    ));
    db
}

fn register_service() -> ProductRegisterAppServiceImpl<
    CategoryServiceImpl<CategoryRepositoryImpl>,
    ProductServiceImpl<ProductRepositoryImpl>,
> {
    ProductRegisterAppServiceImpl::new(
        CategoryServiceImpl::new(CategoryRepositoryImpl::new()),
        ProductServiceImpl::new(ProductRepositoryImpl::new()),
    )
}

#[test]
fn register_then_search_pipeline() {
    let mut db = seeded_db();
    let register = register_service();

    let categories = register.categories(&db).unwrap();
    assert_eq!(categories.len(), 2);
    assert_eq!(categories[0].id, "1");
    assert_eq!(categories[0].name, "文房具");

    let form = ProductRegisterForm {
        name: Some(String::from("万年筆インク")),
        price: Some(1000),
        category_id: Some(1),
    };
    let dto = register.execute(&mut db, &form).unwrap();
    assert_eq!(dto.id, "1");
    assert_eq!(dto.name, "万年筆インク");
    assert_eq!(dto.price, "¥1,000");
    // The exposed category carries the stored name, not the placeholder.
    assert_eq!(dto.category.id, "1");
    assert_eq!(dto.category.name, "文房具");

    let duplicate = register.execute(&mut db, &form);
    assert!(matches!(duplicate, Err(AppError::RegisterError(_))));

    let search = ProductSearchAppServiceImpl::new(ProductServiceImpl::new(
        ProductRepositoryImpl::new(),
    ));
    let found = search
        .search(&db, &ProductSearchForm { keyword: Some(String::from("インク")) })
        .unwrap();
    assert_eq!(found.len(), 1);
    assert_eq!(found[0].name, "万年筆インク");

    let missing = search.search(
        &db,
        &ProductSearchForm { keyword: Some(String::from("nonexistent-substr")) },
    );
    assert!(matches!(missing, Err(AppError::SearchError(_))));

    let invalid = search.search(&db, &ProductSearchForm { keyword: None });
    assert!(matches!(invalid, Err(AppError::ValidationFailure(_))));

    // A keyword longer than a product name can ever be is rejected at
    // conversion, before any lookup.
    let too_long = search.search(
        &db,
        &ProductSearchForm { keyword: Some(String::from("nonexistent-substring")) },
    );
    assert!(matches!(too_long, Err(AppError::ValidationFailure(_))));
}

#[test]
fn register_fails_when_the_category_is_missing() {
    // Category 3 is a valid id but is not seeded in this store; the
    // product stays persisted and the use case reports the failed lookup.
    let mut db = seeded_db();
    let register = register_service();
    let form = ProductRegisterForm {
        name: Some(String::from("彫刻刀セット")),
        price: Some(800),
        category_id: Some(3),
    };
    let result = register.execute(&mut db, &form);
    assert!(matches!(result, Err(AppError::SearchError(_))));
    let products = ProductServiceImpl::new(ProductRepositoryImpl::new());
    let found = products
        .by_keyword(&db, &ProductName::try_from(String::from("彫刻刀")).unwrap())
        .unwrap();
    assert_eq!(found.len(), 1);
}

#[test]
fn authenticate_pipeline() {
    let mut db = MemoryDb::new();
    let fresh = User::new(
        UserName::try_from(String::from("user001")).unwrap(),
        Password::try_from(String::from("j2hcn6sU")).unwrap(),
        Mail::try_from(String::from("user001@sample.com")).unwrap(),
    )
    .unwrap();
    db.add_user(User::rebuilding(
        UserId::try_from(String::from("stored-001")).unwrap(),
        UserName::try_from(String::from("user001")).unwrap(),
        Password::try_from(fresh.password.value()).unwrap(),
        Mail::try_from(String::from("user001@sample.com")).unwrap(),
    ));
    let authenticate = AuthenticateAppServiceImpl::new(UserServiceImpl::new(
        UserRepositoryImpl::new(),
    ));

    let granted = authenticate
        .execute(
            &db,
            &LoginForm {
                name: Some(String::from("user001")),
                password: Some(String::from("j2hcn6sU")),
            },
        )
        .unwrap();
    assert_eq!(granted.user_id, "stored-001");
    assert_eq!(granted.user_name, "user001");

    let wrong = authenticate.execute(
        &db,
        &LoginForm {
            name: Some(String::from("user001")),
            password: Some(String::from("wrong-pw")),
        },
    );
    assert!(matches!(wrong, Err(AppError::AuthenticateError(_))));

    let unknown = authenticate.execute(
        &db,
        &LoginForm {
            name: Some(String::from("nobody1")),
            password: Some(String::from("j2hcn6sU")),
        },
    );
    assert!(matches!(unknown, Err(AppError::AuthenticateError(_))));

    let invalid = authenticate.execute(&db, &LoginForm { name: None, password: None });
    assert!(matches!(invalid, Err(AppError::ValidationFailure(_))));
}
