use shop_domain::domain::values::{
    CategoryId, CategoryName, Mail, Password, ProductId, ProductName, ProductPrice, UserId,
    UserName, ValueInto,
};
use shop_domain::error::AppError;

#[test]
fn category_id_closed_set() {
    for bad in [-1, 0, 4, 100] {
        let result = CategoryId::try_from(bad);
        assert!(matches!(result, Err(AppError::ValidationFailure(_))));
    }
    for good in [1, 2, 3] {
        let id = CategoryId::try_from(good).unwrap();
        assert_eq!(id.value(), good);
    }
}

#[test]
fn short_text_bounds() {
    assert!(matches!(
        CategoryName::try_from(String::new()),
        Err(AppError::ValidationFailure(_))
    ));
    assert!(matches!(
        ProductName::try_from(String::new()),
        Err(AppError::ValidationFailure(_))
    ));
    assert!(matches!(
        UserName::try_from(String::new()),
        Err(AppError::ValidationFailure(_))
    ));
    let at_limit = "x".repeat(20);
    assert_eq!(CategoryName::try_from(at_limit.clone()).unwrap().value(), at_limit);
    assert_eq!(ProductName::try_from(at_limit.clone()).unwrap().value(), at_limit);
    assert_eq!(UserName::try_from(at_limit.clone()).unwrap().value(), at_limit);
    let beyond = "x".repeat(21);
    assert!(matches!(
        CategoryName::try_from(beyond.clone()),
        Err(AppError::ValidationFailure(_))
    ));
    assert!(matches!(
        ProductName::try_from(beyond.clone()),
        Err(AppError::ValidationFailure(_))
    ));
    assert!(matches!(
        UserName::try_from(beyond),
        Err(AppError::ValidationFailure(_))
    ));
}

#[test]
fn mail_bounds() {
    assert!(matches!(
        Mail::try_from(String::new()),
        Err(AppError::ValidationFailure(_))
    ));
    let at_limit = "m".repeat(36);
    assert_eq!(Mail::try_from(at_limit.clone()).unwrap().value(), at_limit);
    let beyond = "m".repeat(37);
    assert!(matches!(Mail::try_from(beyond), Err(AppError::ValidationFailure(_))));
}

#[test]
fn nonempty_texts() {
    assert!(matches!(
        UserId::try_from(String::new()),
        Err(AppError::ValidationFailure(_))
    ));
    assert!(matches!(
        Password::try_from(String::new()),
        Err(AppError::ValidationFailure(_))
    ));
    assert_eq!(UserId::try_from(String::from("u")).unwrap().value(), "u");
    assert_eq!(Password::try_from(String::from("p")).unwrap().value(), "p");
}

#[test]
fn product_id_not_negative() {
    assert!(matches!(ProductId::try_from(-1), Err(AppError::ValidationFailure(_))));
    assert_eq!(ProductId::try_from(0).unwrap().value(), 0);
    assert_eq!(ProductId::try_from(7).unwrap().value(), 7);
}

#[test]
fn product_price_interval() {
    assert!(matches!(ProductPrice::try_from(49), Err(AppError::ValidationFailure(_))));
    assert_eq!(ProductPrice::try_from(50).unwrap().value(), 50);
    assert_eq!(ProductPrice::try_from(10000).unwrap().value(), 10000);
    assert!(matches!(
        ProductPrice::try_from(10001),
        Err(AppError::ValidationFailure(_))
    ));
}

#[test]
fn unicode_lengths_are_counted_in_characters() {
    let japanese = "文房具".to_string();
    assert_eq!(CategoryName::try_from(japanese.clone()).unwrap().value(), japanese);
    let long_japanese = "あ".repeat(21);
    assert!(matches!(
        ProductName::try_from(long_japanese),
        Err(AppError::ValidationFailure(_))
    ));
}
