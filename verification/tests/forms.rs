use shop_domain::domain::entities::Characteristic;
use shop_domain::domain::values::ValueInto;
use shop_domain::error::AppError;
use shop_domain::presentation::forms::{
    FormToDomain, LoginForm, ProductRegisterForm, ProductSearchForm,
};

#[test]
fn search_form_validate() {
    let form = ProductSearchForm { keyword: Some(String::from("")) };
    let result = form.validate_value();
    println!("{:?}", result);
    assert!(result.is_err());
}

#[test]
fn login_form_validate() {
    let form = LoginForm { name: Some(String::from("")), password: Some(String::from("")) };
    let result = form.validate_value();
    println!("{:?}", result);
    assert!(result.is_err());
}

#[test]
fn search_form_accepts_a_keyword() {
    let form = ProductSearchForm { keyword: Some(String::from("マウス")) };
    assert!(form.validate_value().is_ok());
    let name = form.convert().unwrap();
    assert_eq!(name.value(), "マウス");
    let missing = ProductSearchForm { keyword: None };
    assert!(missing.validate_value().is_err());
    assert!(matches!(missing.convert(), Err(AppError::ValidationFailure(_))));
}

#[test]
fn register_form_field_rules() {
    let valid = ProductRegisterForm {
        name: Some(String::from("蛍光ペン")),
        price: Some(300),
        category_id: Some(1),
    };
    assert!(valid.validate_value().is_ok());

    let short_name = ProductRegisterForm {
        name: Some(String::from("ペン")),
        price: Some(300),
        category_id: Some(1),
    };
    let errors = short_name.validate_value().unwrap_err();
    assert_eq!(errors.entries.len(), 1);
    assert_eq!(errors.entries[0].0, "name");

    let bad_price = ProductRegisterForm {
        name: Some(String::from("蛍光ペン")),
        price: Some(49),
        category_id: Some(1),
    };
    let errors = bad_price.validate_value().unwrap_err();
    assert_eq!(errors.entries.len(), 1);
    assert_eq!(errors.entries[0].0, "price");
    let top_price = ProductRegisterForm {
        name: Some(String::from("蛍光ペン")),
        price: Some(100000),
        category_id: Some(1),
    };
    assert!(top_price.validate_value().is_ok());

    let bad_category = ProductRegisterForm {
        name: Some(String::from("蛍光ペン")),
        price: Some(300),
        category_id: Some(4),
    };
    let errors = bad_category.validate_value().unwrap_err();
    assert_eq!(errors.entries.len(), 1);
    assert_eq!(errors.entries[0].0, "category_id");

    let empty = ProductRegisterForm { name: None, price: None, category_id: None };
    let errors = empty.validate_value().unwrap_err();
    assert_eq!(errors.entries.len(), 3);
}

#[test]
fn register_form_converts_to_a_product() {
    let form = ProductRegisterForm {
        name: Some(String::from("蛍光ペン")),
        price: Some(300),
        category_id: Some(1),
    };
    let product = form.convert().unwrap();
    assert_eq!(product.get().value(), 0);
    assert_eq!(product.name.value(), "蛍光ペン");
    assert_eq!(product.price.value(), 300);
    let category = product.category.unwrap();
    assert_eq!(category.get().value(), 1);

    // The domain price rule is narrower than the boundary rule.
    let boundary_price = ProductRegisterForm {
        name: Some(String::from("蛍光ペン")),
        price: Some(100000),
        category_id: Some(1),
    };
    assert!(matches!(
        boundary_price.convert(),
        Err(AppError::ValidationFailure(_))
    ));
}

#[test]
fn login_form_length_rules() {
    let valid = LoginForm {
        name: Some(String::from("user001")),
        password: Some(String::from("j2hcn6sU")),
    };
    assert!(valid.validate_value().is_ok());

    let five = LoginForm {
        name: Some(String::from("user0")),
        password: Some(String::from("j2hcn6sU")),
    };
    let errors = five.validate_value().unwrap_err();
    assert_eq!(errors.entries.len(), 1);
    assert_eq!(errors.entries[0].0, "name");

    let long_password = LoginForm {
        name: Some(String::from("user001")),
        password: Some(String::from("p".repeat(21))),
    };
    let errors = long_password.validate_value().unwrap_err();
    assert_eq!(errors.entries[0].0, "password");

    // An absent field is skipped by the boundary check.
    let absent = LoginForm { name: None, password: None };
    assert!(absent.validate_value().is_ok());
}

#[test]
fn login_form_converts_to_a_hashed_user() {
    let form = LoginForm {
        name: Some(String::from("user001")),
        password: Some(String::from("j2hcn6sU")),
    };
    let user = form.convert().unwrap();
    assert_eq!(user.user_name.value(), "user001");
    assert_ne!(user.password.value(), "j2hcn6sU");
    assert_eq!(user.password.value().len(), 128);
    assert_eq!(user.get().value().len(), 36);

    let missing = LoginForm { name: None, password: Some(String::from("j2hcn6sU")) };
    assert!(matches!(missing.convert(), Err(AppError::ValidationFailure(_))));
}
