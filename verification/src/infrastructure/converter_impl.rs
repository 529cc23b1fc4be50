//! Row models of the three tables and the converters over them.
//!
//! These are the plain shapes a storage binding exchanges with its store:
//! an integer key and optional columns. The converters re-validate every
//! column on the way in and lay the value objects out on the way out.

use crate::domain::entities::{Category, Product, User};
use crate::domain::values::{
    valid_category_id, valid_mail_text, valid_nonempty_text, valid_product_id,
    valid_product_price, valid_short_text, CategoryId, CategoryName, Mail, Password, ProductId,
    ProductName, ProductPrice, UserId, UserName, ValueInto,
};
use crate::error::AppError;
use crate::infrastructure::converter::{ModelAndEntity, VecModelToVecEntity};
use vstd::prelude::*;

verus! {

/// Row shape of the category table.
#[derive(Debug)]
pub struct CategoryRecord {
    pub id: i32,
    pub name: Option<String>,
}

/// Row shape of the product table.
#[derive(Debug)]
pub struct ProductRecord {
    pub id: i32,
    pub name: Option<String>,
    pub price: Option<i32>,
    pub category_id: Option<i32>,
}

/// Row shape of the user table.
#[derive(Debug)]
pub struct UserRecord {
    pub id: i32,
    pub user_id: Option<String>,
    pub user_name: Option<String>,
    pub password: Option<String>,
    pub mail: Option<String>,
}

/// Whether a category row is complete and valid.
pub open spec fn category_record_ok(model: &CategoryRecord) -> bool {
    &&& valid_category_id(model.id)
    &&& model.name matches Some(n) && valid_short_text(n@)
}

/// What it means for `entity` to be the reading of a category row.
pub open spec fn category_of_record(model: &CategoryRecord, entity: &Category) -> bool {
    &&& entity.id@ == model.id as int
    &&& (model.name matches Some(n) && entity.name@ == n@)
}

/// Whether a product row is complete and valid.
pub open spec fn product_record_ok(model: &ProductRecord) -> bool {
    &&& valid_product_id(model.id)
    &&& model.name matches Some(n) && valid_short_text(n@)
    &&& model.price matches Some(p) && valid_product_price(p)
    &&& model.category_id matches Some(c) && valid_category_id(c)
}

/// What it means for `entity` to be the reading of a product row alone:
/// the category carries only the foreign key and a placeholder name.
pub open spec fn product_of_record(model: &ProductRecord, entity: &Product) -> bool {
    &&& entity.id@ == model.id as int
    &&& (model.name matches Some(n) && entity.name@ == n@)
    &&& (model.price matches Some(p) && entity.price@ == p as int)
    &&& (entity.category matches Some(c) && (model.category_id matches Some(cid) && c.id@
        == cid as int) && c.name@ == "dummy"@)
}

/// Whether a joined product and category row is complete and valid.
pub open spec fn product_join_ok(row: &(ProductRecord, Option<CategoryRecord>)) -> bool {
    &&& valid_product_id(row.0.id)
    &&& row.0.name matches Some(n) && valid_short_text(n@)
    &&& row.0.price matches Some(p) && valid_product_price(p)
    &&& row.1 matches Some(joined) && category_record_ok(&joined)
}

/// What it means for `entity` to be the reading of a joined row: the
/// category comes from the joined table, name included.
pub open spec fn product_of_join(
    row: &(ProductRecord, Option<CategoryRecord>),
    entity: &Product,
) -> bool {
    &&& entity.id@ == row.0.id as int
    &&& (row.0.name matches Some(n) && entity.name@ == n@)
    &&& (row.0.price matches Some(p) && entity.price@ == p as int)
    &&& (entity.category matches Some(c) && (row.1 matches Some(joined)
        && category_of_record(&joined, &c)))
}

/// Whether a user row is complete and valid.
pub open spec fn user_record_ok(model: &UserRecord) -> bool {
    &&& model.user_id matches Some(i) && valid_nonempty_text(i@)
    &&& model.user_name matches Some(n) && valid_short_text(n@)
    &&& model.password matches Some(p) && valid_nonempty_text(p@)
    &&& model.mail matches Some(m) && valid_mail_text(m@)
}

/// What it means for `entity` to be the reading of a user row.
pub open spec fn user_of_record(model: &UserRecord, entity: &User) -> bool {
    &&& (model.user_id matches Some(i) && entity.user_id@ == i@)
    &&& (model.user_name matches Some(n) && entity.user_name@ == n@)
    &&& (model.password matches Some(p) && entity.password@ == p@)
    &&& (model.mail matches Some(m) && entity.mail@ == m@)
}

/// Converter between category rows and category entities.
pub struct CategoryConverter;

impl ModelAndEntity for CategoryConverter {
    type Entity = Category;

    type Model = CategoryRecord;

    open spec fn model_ok(model: &CategoryRecord) -> bool {
        category_record_ok(model)
    }

    open spec fn entity_matches(model: &CategoryRecord, entity: &Category) -> bool {
        category_of_record(model, entity)
    }

    open spec fn entity_ok(entity: &Category) -> bool {
        true
    }

    open spec fn model_matches(entity: &Category, model: &CategoryRecord) -> bool {
        &&& model.id as int == entity.id@
        &&& (model.name matches Some(n) && n@ == entity.name@)
    }

    fn model_to_entity(model: &CategoryRecord) -> (r: Result<Category, AppError>) {
        let id = match CategoryId::try_from(model.id) {
            Ok(v) => v,
            Err(e) => {
                return Err(e);
            },
        };
        let name_text = match &model.name {
            Some(n) => n.clone(),
            None => {
                return Err(AppError::ValidationFailure(String::from_str(
                    "カテゴリ名がありません。",
                )));
            },
        };
        let name = match CategoryName::try_from(name_text) {
            Ok(v) => v,
            Err(e) => {
                return Err(e);
            },
        };
        Ok(Category::new(id, name))
    }

    fn entity_to_model(entity: &Category) -> (r: CategoryRecord) {
        CategoryRecord { id: entity.id.value(), name: Some(entity.name.value()) }
    }
}

impl VecModelToVecEntity for CategoryConverter {
    type Entity = Category;

    type Model = CategoryRecord;

    type JoinModel = ();

    open spec fn row_ok(model: &CategoryRecord) -> bool {
        category_record_ok(model)
    }

    open spec fn row_matches(model: &CategoryRecord, entity: &Category) -> bool {
        category_of_record(model, entity)
    }

    open spec fn join_row_ok(row: &(CategoryRecord, Option<()>)) -> bool {
        category_record_ok(&row.0)
    }

    open spec fn join_row_matches(row: &(CategoryRecord, Option<()>), entity: &Category) -> bool {
        category_of_record(&row.0, entity)
    }

    fn entities(models: &Vec<CategoryRecord>) -> (r: Result<Vec<Category>, AppError>) {
        let mut found: Vec<Category> = Vec::new();
        let mut i: usize = 0;
        while i < models.len()
            invariant
                i <= models@.len(),
                found@.len() == i,
                forall|k: int|
                    0 <= k < i ==> category_record_ok(&models@[k]) && category_of_record(
                        &models@[k],
                        &(#[trigger] found@[k]),
                    ),
            decreases models@.len() - i,
        {
            let entity = match Self::model_to_entity(&models[i]) {
                Ok(v) => v,
                Err(e) => {
                    return Err(e);
                },
            };
            found.push(entity);
            i += 1;
        }
        Ok(found)
    }

    fn join_model_to_entities(models: &Vec<(CategoryRecord, Option<()>)>) -> (r: Result<
        Vec<Category>,
        AppError,
    >) {
        let mut found: Vec<Category> = Vec::new();
        let mut i: usize = 0;
        while i < models.len()
            invariant
                i <= models@.len(),
                found@.len() == i,
                forall|k: int|
                    #![trigger found@[k]]
                    #![trigger models@[k]]
                    0 <= k < i ==> category_record_ok(&models@[k].0) && category_of_record(
                        &models@[k].0,
                        &found@[k],
                    ),
            decreases models@.len() - i,
        {
            let row = &models[i];
            let entity = match Self::model_to_entity(&row.0) {
                Ok(v) => v,
                Err(e) => {
                    return Err(e);
                },
            };
            proof {
                assert(category_record_ok(&models@[i as int].0));
                assert(category_of_record(&models@[i as int].0, &entity));
            }
            found.push(entity);
            i += 1;
        }
        Ok(found)
    }
}

/// Converter between product rows and product entities.
pub struct ProductConverter;

impl ModelAndEntity for ProductConverter {
    type Entity = Product;

    type Model = ProductRecord;

    open spec fn model_ok(model: &ProductRecord) -> bool {
        product_record_ok(model)
    }

    open spec fn entity_matches(model: &ProductRecord, entity: &Product) -> bool {
        product_of_record(model, entity)
    }

    open spec fn entity_ok(entity: &Product) -> bool {
        entity.category is Some
    }

    open spec fn model_matches(entity: &Product, model: &ProductRecord) -> bool {
        &&& model.id as int == entity.id@
        &&& (model.name matches Some(n) && n@ == entity.name@)
        &&& (model.price matches Some(p) && p as int == entity.price@)
        &&& (model.category_id matches Some(cid) && (entity.category matches Some(c) && cid as int
            == c.id@))
    }

    fn model_to_entity(model: &ProductRecord) -> (r: Result<Product, AppError>) {
        let category_number = match model.category_id {
            Some(c) => c,
            None => {
                return Err(AppError::ValidationFailure(String::from_str(
                    "カテゴリは入力必須です。",
                )));
            },
        };
        let category_id = match CategoryId::try_from(category_number) {
            Ok(v) => v,
            Err(e) => {
                return Err(e);
            },
        };
        proof {
            reveal_strlit("dummy");
        }
        let category_name = match CategoryName::try_from(String::from_str("dummy")) {
            Ok(v) => v,
            Err(_) => unreached(),
        };
        let category = Category::new(category_id, category_name);
        let id = match ProductId::try_from(model.id) {
            Ok(v) => v,
            Err(e) => {
                return Err(e);
            },
        };
        let name_text = match &model.name {
            Some(n) => n.clone(),
            None => {
                return Err(AppError::ValidationFailure(String::from_str(
                    "商品名がありません。",
                )));
            },
        };
        let name = match ProductName::try_from(name_text) {
            Ok(v) => v,
            Err(e) => {
                return Err(e);
            },
        };
        let price = match model.price {
            Some(p) => match ProductPrice::try_from(p) {
                Ok(v) => v,
                Err(e) => {
                    return Err(e);
                },
            },
            None => {
                return Err(AppError::ValidationFailure(String::from_str(
                    "単価は入力必須です。",
                )));
            },
        };
        Ok(Product::new(id, name, price, Some(category)))
    }

    fn entity_to_model(entity: &Product) -> (r: ProductRecord) {
        let category_number = match &entity.category {
            Some(c) => c.id.value(),
            None => unreached(),
        };
        ProductRecord {
            id: entity.id.value(),
            name: Some(entity.name.value()),
            price: Some(entity.price.value()),
            category_id: Some(category_number),
        }
    }
}

impl VecModelToVecEntity for ProductConverter {
    type Entity = Product;

    type Model = ProductRecord;

    type JoinModel = CategoryRecord;

    open spec fn row_ok(model: &ProductRecord) -> bool {
        product_record_ok(model)
    }

    open spec fn row_matches(model: &ProductRecord, entity: &Product) -> bool {
        product_of_record(model, entity)
    }

    open spec fn join_row_ok(row: &(ProductRecord, Option<CategoryRecord>)) -> bool {
        product_join_ok(row)
    }

    open spec fn join_row_matches(
        row: &(ProductRecord, Option<CategoryRecord>),
        entity: &Product,
    ) -> bool {
        product_of_join(row, entity)
    }

    fn entities(models: &Vec<ProductRecord>) -> (r: Result<Vec<Product>, AppError>) {
        let mut found: Vec<Product> = Vec::new();
        let mut i: usize = 0;
        while i < models.len()
            invariant
                i <= models@.len(),
                found@.len() == i,
                forall|k: int|
                    0 <= k < i ==> product_record_ok(&models@[k]) && product_of_record(
                        &models@[k],
                        &(#[trigger] found@[k]),
                    ),
            decreases models@.len() - i,
        {
            let entity = match Self::model_to_entity(&models[i]) {
                Ok(v) => v,
                Err(e) => {
                    return Err(e);
                },
            };
            found.push(entity);
            i += 1;
        }
        Ok(found)
    }

    fn join_model_to_entities(models: &Vec<(ProductRecord, Option<CategoryRecord>)>) -> (r: Result<
        Vec<Product>,
        AppError,
    >) {
        let mut found: Vec<Product> = Vec::new();
        let mut i: usize = 0;
        while i < models.len()
            invariant
                i <= models@.len(),
                found@.len() == i,
                forall|k: int|
                    0 <= k < i ==> product_join_ok(&models@[k]) && product_of_join(
                        &models@[k],
                        &(#[trigger] found@[k]),
                    ),
            decreases models@.len() - i,
        {
            let row = &models[i];
            let joined = match &row.1 {
                Some(j) => j,
                None => {
                    return Err(AppError::ValidationFailure(String::from_str(
                        "カテゴリは入力必須です。",
                    )));
                },
            };
            let category = match CategoryConverter::model_to_entity(joined) {
                Ok(v) => v,
                Err(e) => {
                    return Err(e);
                },
            };
            let id = match ProductId::try_from(row.0.id) {
                Ok(v) => v,
                Err(e) => {
                    return Err(e);
                },
            };
            let name_text = match &row.0.name {
                Some(n) => n.clone(),
                None => {
                    return Err(AppError::ValidationFailure(String::from_str(
                        "商品名がありません。",
                    )));
                },
            };
            let name = match ProductName::try_from(name_text) {
                Ok(v) => v,
                Err(e) => {
                    return Err(e);
                },
            };
            let price = match row.0.price {
                Some(p) => match ProductPrice::try_from(p) {
                    Ok(v) => v,
                    Err(e) => {
                        return Err(e);
                    },
                },
                None => {
                    return Err(AppError::ValidationFailure(String::from_str(
                        "単価は入力必須です。",
                    )));
                },
            };
            found.push(Product::new(id, name, price, Some(category)));
            i += 1;
        }
        Ok(found)
    }
}

/// Converter between user rows and user entities.
pub struct UserConverter;

impl ModelAndEntity for UserConverter {
    type Entity = User;

    type Model = UserRecord;

    open spec fn model_ok(model: &UserRecord) -> bool {
        user_record_ok(model)
    }

    open spec fn entity_matches(model: &UserRecord, entity: &User) -> bool {
        user_of_record(model, entity)
    }

    open spec fn entity_ok(entity: &User) -> bool {
        true
    }

    open spec fn model_matches(entity: &User, model: &UserRecord) -> bool {
        &&& model.id == 0
        &&& (model.user_id matches Some(i) && i@ == entity.user_id@)
        &&& (model.user_name matches Some(n) && n@ == entity.user_name@)
        &&& (model.password matches Some(p) && p@ == entity.password@)
        &&& (model.mail matches Some(m) && m@ == entity.mail@)
    }

    fn model_to_entity(model: &UserRecord) -> (r: Result<User, AppError>) {
        let user_id_text = match &model.user_id {
            Some(i) => i.clone(),
            None => {
                return Err(AppError::ValidationFailure(String::from_str(
                    "ユーザーIDがありません。",
                )));
            },
        };
        let user_id = match UserId::try_from(user_id_text) {
            Ok(v) => v,
            Err(e) => {
                return Err(e);
            },
        };
        let user_name_text = match &model.user_name {
            Some(n) => n.clone(),
            None => {
                return Err(AppError::ValidationFailure(String::from_str(
                    "ユーザー名がありません。",
                )));
            },
        };
        let user_name = match UserName::try_from(user_name_text) {
            Ok(v) => v,
            Err(e) => {
                return Err(e);
            },
        };
        let password_text = match &model.password {
            Some(p) => p.clone(),
            None => {
                return Err(AppError::ValidationFailure(String::from_str(
                    "パスワードがありません。",
                )));
            },
        };
        let password = match Password::try_from(password_text) {
            Ok(v) => v,
            Err(e) => {
                return Err(e);
            },
        };
        let mail_text = match &model.mail {
            Some(m) => m.clone(),
            None => {
                return Err(AppError::ValidationFailure(String::from_str(
                    "メールアドレスがありません。",
                )));
            },
        };
        let mail = match Mail::try_from(mail_text) {
            Ok(v) => v,
            Err(e) => {
                return Err(e);
            },
        };
        Ok(User::rebuilding(user_id, user_name, password, mail))
    }

    fn entity_to_model(entity: &User) -> (r: UserRecord) {
        UserRecord {
            id: 0,
            user_id: Some(entity.user_id.value()),
            user_name: Some(entity.user_name.value()),
            password: Some(entity.password.value()),
            mail: Some(entity.mail.value()),
        }
    }
}

} // verus!
