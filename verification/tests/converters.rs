use shop_domain::domain::entities::{Category, Characteristic, Product, User};
use shop_domain::domain::values::{
    CategoryId, CategoryName, Mail, Password, ProductId, ProductName, ProductPrice, UserId,
    UserName, ValueInto,
};
use shop_domain::error::AppError;
use shop_domain::infrastructure::converter::{ModelAndEntity, VecModelToVecEntity};
use shop_domain::infrastructure::converter_impl::{
    CategoryConverter, CategoryRecord, ProductConverter, ProductRecord, UserConverter, UserRecord,
};

#[test]
fn category_record_both_ways() {
    let record = CategoryRecord { id: 1, name: Some(String::from("文房具")) };
    let entity = CategoryConverter::model_to_entity(&record).unwrap();
    assert_eq!(entity.get().value(), 1);
    assert_eq!(entity.name.value(), "文房具");
    let back = CategoryConverter::entity_to_model(&entity);
    assert_eq!(back.id, 1);
    assert_eq!(back.name.as_deref(), Some("文房具"));

    let missing = CategoryRecord { id: 1, name: None };
    assert!(matches!(
        CategoryConverter::model_to_entity(&missing),
        Err(AppError::ValidationFailure(_))
    ));
    let bad_id = CategoryRecord { id: 9, name: Some(String::from("文房具")) };
    assert!(matches!(
        CategoryConverter::model_to_entity(&bad_id),
        Err(AppError::ValidationFailure(_))
    ));
}

#[test]
fn category_records_in_bulk() {
    let records = vec![
        CategoryRecord { id: 1, name: Some(String::from("文房具")) },
        CategoryRecord { id: 2, name: Some(String::from("雑貨")) },
    ];
    let entities = CategoryConverter::entities(&records).unwrap();
    assert_eq!(entities.len(), 2);
    assert_eq!(entities[1].name.value(), "雑貨");
}

#[test]
fn product_record_both_ways() {
    let record = ProductRecord {
        id: 10,
        name: Some(String::from("ボールペン")),
        price: Some(120),
        category_id: Some(1),
    };
    let entity = ProductConverter::model_to_entity(&record).unwrap();
    assert_eq!(entity.get().value(), 10);
    assert_eq!(entity.price.value(), 120);
    assert_eq!(entity.category.as_ref().unwrap().get().value(), 1);
    let back = ProductConverter::entity_to_model(&entity);
    assert_eq!(back.id, 10);
    assert_eq!(back.price, Some(120));
    assert_eq!(back.category_id, Some(1));
}

#[test]
fn product_join_rows() {
    let rows = vec![
        (
            ProductRecord {
                id: 1,
                name: Some(String::from("ボールペン")),
                price: Some(120),
                category_id: Some(1),
            },
            Some(CategoryRecord { id: 1, name: Some(String::from("文房具")) }),
        ),
        (
            ProductRecord {
                id: 2,
                name: Some(String::from("マウスパッド")),
                price: Some(500),
                category_id: Some(3),
            },
            Some(CategoryRecord { id: 3, name: Some(String::from("パソコン周辺機器")) }),
        ),
    ];
    let entities = ProductConverter::join_model_to_entities(&rows).unwrap();
    assert_eq!(entities.len(), 2);
    // The joined category carries the real stored name.
    assert_eq!(entities[0].category.as_ref().unwrap().name.value(), "文房具");
    assert_eq!(entities[1].category.as_ref().unwrap().name.value(), "パソコン周辺機器");

    let unjoined = vec![(
        ProductRecord {
            id: 3,
            name: Some(String::from("ノート")),
            price: Some(180),
            category_id: Some(1),
        },
        None,
    )];
    assert!(matches!(
        ProductConverter::join_model_to_entities(&unjoined),
        Err(AppError::ValidationFailure(_))
    ));
}

#[test]
fn user_record_both_ways() {
    let record = UserRecord {
        id: 5,
        user_id: Some(String::from("id-001")),
        user_name: Some(String::from("user001")),
        password: Some(String::from("hashed")),
        mail: Some(String::from("user001@sample.com")),
    };
    let entity = UserConverter::model_to_entity(&record).unwrap();
    assert_eq!(entity.get().value(), "id-001");
    assert_eq!(entity.password.value(), "hashed");
    let back = UserConverter::entity_to_model(&entity);
    assert_eq!(back.id, 0);
    assert_eq!(back.user_id.as_deref(), Some("id-001"));
    assert_eq!(back.mail.as_deref(), Some("user001@sample.com"));

    let missing = UserRecord {
        id: 5,
        user_id: None,
        user_name: Some(String::from("user001")),
        password: Some(String::from("hashed")),
        mail: Some(String::from("user001@sample.com")),
    };
    assert!(matches!(
        UserConverter::model_to_entity(&missing),
        Err(AppError::ValidationFailure(_))
    ));
}
