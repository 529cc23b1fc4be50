use easy_hasher::easy_hasher::sha3_512;
use shop_domain::domain::entities::{Category, Characteristic, Product, User};
use shop_domain::domain::values::{
    CategoryId, CategoryName, Mail, Password, ProductId, ProductName, ProductPrice, UserId,
    UserName, ValueInto,
};

#[test]
fn category() {
    let category1 = Category::new(
        CategoryId::try_from(1).unwrap(),
        CategoryName::try_from(String::from("文房具")).unwrap(),
    );
    let category2 = Category::new(
        CategoryId::try_from(1).unwrap(),
        CategoryName::try_from(String::from("文房具")).unwrap(),
    );
    let result = category1.equals(&category2.get());
    println!("result = {:?}", result);
    assert!(result);
    let category3 = Category::new(
        CategoryId::try_from(1).unwrap(),
        CategoryName::try_from(String::from("文房具")).unwrap(),
    );
    let category4 = Category::new(
        CategoryId::try_from(2).unwrap(),
        CategoryName::try_from(String::from("雑貨")).unwrap(),
    );
    let result = category3.equals(&category4.get());
    println!("result = {:?}", result);
    assert!(!result);
}

#[test]
fn product_identity_change() {
    let mut product = Product::new(
        ProductId::try_from(0).unwrap(),
        ProductName::try_from(String::from("ボールペン")).unwrap(),
        ProductPrice::try_from(120).unwrap(),
        None,
    );
    assert_eq!(product.get().value(), 0);
    product.change(&ProductId::try_from(41).unwrap()).unwrap();
    assert_eq!(product.get().value(), 41);
    assert!(product.equals(&ProductId::try_from(41).unwrap()));
    assert!(!product.equals(&ProductId::try_from(40).unwrap()));
    assert_eq!(product.name.value(), "ボールペン");
    assert_eq!(product.price.value(), 120);
}

#[test]
fn user_new_hashes_the_password() {
    let user = User::new(
        UserName::try_from(String::from("user001")).unwrap(),
        Password::try_from(String::from("j2hcn6sU")).unwrap(),
        Mail::try_from(String::from("user001@sample.com")).unwrap(),
    )
    .unwrap();
    let stored = user.password.value();
    // Never the raw text: the stored value is the full hex digest.
    assert_ne!(stored, "j2hcn6sU");
    assert_eq!(stored.len(), 128);
    assert_eq!(stored, sha3_512(&String::from("j2hcn6sU")).to_hex_string());
    assert_eq!(user.get().value().len(), 36);
    assert_eq!(user.user_name.value(), "user001");
    assert_eq!(user.mail.value(), "user001@sample.com");
}

#[test]
fn user_new_same_password_fresh_identity() {
    let build = || {
        User::new(
            UserName::try_from(String::from("user001")).unwrap(),
            Password::try_from(String::from("j2hcn6sU")).unwrap(),
            Mail::try_from(String::from("user001@sample.com")).unwrap(),
        )
        .unwrap()
    };
    let first = build();
    let second = build();
    assert_ne!(first.get().value(), second.get().value());
    assert_eq!(first.password.value(), second.password.value());
}

#[test]
fn user_rebuilding_keeps_the_stored_hash() {
    let user = User::rebuilding(
        UserId::try_from(String::from("id-001")).unwrap(),
        UserName::try_from(String::from("user001")).unwrap(),
        Password::try_from(String::from("already-hashed")).unwrap(),
        Mail::try_from(String::from("user001@sample.com")).unwrap(),
    );
    assert_eq!(user.get().value(), "id-001");
    assert_eq!(user.password.value(), "already-hashed");
}
