use shop_domain::app_commons::transfers::{CategoryDto, EntityToDto, ProductDto, UserDto};
use shop_domain::domain::entities::{Category, Product, User};
use shop_domain::domain::values::{
    CategoryId, CategoryName, Mail, Password, ProductId, ProductName, ProductPrice, UserId,
    UserName, ValueInto,
};
use shop_domain::text::decimal_string;

#[test]
fn category_round_trip() {
    let entity = Category::new(
        CategoryId::try_from(1).unwrap(),
        CategoryName::try_from(String::from("文房具")).unwrap(),
    );
    let dto = CategoryDto::convert(&entity);
    assert_eq!(dto.id, "1");
    assert_eq!(dto.name, entity.name.value());
}

#[test]
fn product_round_trip_with_currency_text() {
    let entity = Product::new(
        ProductId::try_from(27).unwrap(),
        ProductName::try_from(String::from("ワイヤレスマウス")).unwrap(),
        ProductPrice::try_from(1000).unwrap(),
        Some(Category::new(
            CategoryId::try_from(2).unwrap(),
            CategoryName::try_from(String::from("雑貨")).unwrap(),
        )),
    );
    let dto = ProductDto::convert(&entity);
    assert_eq!(dto.id, "27");
    assert_eq!(dto.name, entity.name.value());
    // Rendered as yen text, not echoed back as a bare number.
    assert_eq!(dto.price, "¥1,000");
    assert_ne!(dto.price, "1000");
    assert_eq!(dto.category.id, "2");
    assert_eq!(dto.category.name, "雑貨");
}

#[test]
fn user_round_trip() {
    let entity = User::rebuilding(
        UserId::try_from(String::from("id-001")).unwrap(),
        UserName::try_from(String::from("user001")).unwrap(),
        Password::try_from(String::from("hashed-password")).unwrap(),
        Mail::try_from(String::from("user001@sample.com")).unwrap(),
    );
    let dto = UserDto::convert(&entity);
    assert_eq!(dto.user_id, entity.user_id.value());
    assert_eq!(dto.user_name, entity.user_name.value());
    assert_eq!(dto.password, entity.password.value());
    assert_eq!(dto.mail, entity.mail.value());
}

#[test]
fn converts_keeps_order() {
    let first = Category::new(
        CategoryId::try_from(1).unwrap(),
        CategoryName::try_from(String::from("文房具")).unwrap(),
    );
    let second = Category::new(
        CategoryId::try_from(3).unwrap(),
        CategoryName::try_from(String::from("パソコン周辺機器")).unwrap(),
    );
    let dtos = CategoryDto::converts(&vec![first, second]);
    assert_eq!(dtos.len(), 2);
    assert_eq!(dtos[0].id, "1");
    assert_eq!(dtos[1].id, "3");
}

#[test]
fn decimal_rendering() {
    assert_eq!(decimal_string(0), "0");
    assert_eq!(decimal_string(7), "7");
    assert_eq!(decimal_string(10), "10");
    assert_eq!(decimal_string(90301), "90301");
    assert_eq!(decimal_string(i32::MAX), "2147483647");
}
