//! Generic bindings of the domain service contracts.
//!
//! Each service owns a repository binding, injected at construction, and
//! works through whatever transaction handle that binding declares. The
//! business rules live here: which lookup earns which error, and how
//! persistence failures are translated.

use crate::domain::entities::{Category, Product, User};
use crate::domain::repositories::{CategoryRepository, ProductRepository, UserRepository};
use crate::domain::services::{CategoryService, ProductService, UserService};
use crate::domain::values::{CategoryId, ProductName, ValueInto};
use crate::error::AppError;
use crate::text::decimal_string;
use vstd::prelude::*;

verus! {

/// Category service over an injected repository binding.
pub struct CategoryServiceImpl<R> {
    pub repository: R,
}

impl<R: CategoryRepository> CategoryServiceImpl<R> {
    /// Dependency injection at construction.
    pub fn new(repository: R) -> (r: Self)
        ensures
            r == (CategoryServiceImpl { repository }),
    {
        Self { repository }
    }
}

impl<R: CategoryRepository> CategoryService for CategoryServiceImpl<R> {
    type Database = R::Transaction;

    open spec fn categories(db: &R::Transaction) -> Seq<Category> {
        R::categories(db)
    }

    open spec fn fallible() -> bool {
        R::fallible()
    }

    fn all(&self, db: &R::Transaction) -> (r: Result<Vec<Category>, AppError>) {
        self.repository.select_all(db)
    }

    fn by_id(&self, db: &R::Transaction, id: &CategoryId) -> (r: Result<Category, AppError>) {
        id.always_valid();
        match self.repository.select_by_id(db, id) {
            Ok(Some(found)) => Ok(found),
            Ok(None) => Err(AppError::SearchError(
                String::from_str("カテゴリ番号").concat(
                    decimal_string(id.value()).as_str(),
                ).concat("に該当データがありません。"),
            )),
            Err(e) => Err(e),
        }
    }
}

/// Product service over an injected repository binding.
pub struct ProductServiceImpl<R> {
    pub repository: R,
}

impl<R: ProductRepository> ProductServiceImpl<R> {
    /// Dependency injection at construction.
    pub fn new(repository: R) -> (r: Self)
        ensures
            r == (ProductServiceImpl { repository }),
    {
        Self { repository }
    }
}

impl<R: ProductRepository> ProductService for ProductServiceImpl<R> {
    type Database = R::Transaction;

    open spec fn products(db: &R::Transaction) -> Seq<Product> {
        R::products(db)
    }

    open spec fn read_fallible() -> bool {
        R::read_fallible()
    }

    open spec fn write_fallible() -> bool {
        R::write_fallible()
    }

    fn by_keyword(&self, db: &R::Transaction, keyword: &ProductName) -> (r: Result<
        Vec<Product>,
        AppError,
    >) {
        let found = match self.repository.select_by_name_like(db, keyword) {
            Ok(v) => v,
            Err(e) => {
                return Err(e);
            },
        };
        if found.len() == 0 {
            Err(AppError::SearchError(
                String::from_str("キーワード:").concat(keyword.value().as_str()).concat(
                    " を含んだ商品は見つかりません。",
                ),
            ))
        } else {
            Ok(found)
        }
    }

    fn register(&self, db: &mut R::Transaction, product: &Product) -> (r: Result<
        Product,
        AppError,
    >) {
        self.repository.insert(db, product)
    }

    fn exists_by_name(&self, db: &R::Transaction, name: &ProductName) -> (r: Result<
        (),
        AppError,
    >) {
        let found = match self.repository.exists_by_name(db, name) {
            Ok(v) => v,
            Err(e) => {
                return Err(e);
            },
        };
        if found {
            Err(AppError::RegisterError(name.value().concat("は登録済です。")))
        } else {
            Ok(())
        }
    }
}

/// User service over an injected repository binding.
pub struct UserServiceImpl<R> {
    pub repository: R,
}

impl<R: UserRepository> UserServiceImpl<R> {
    /// Dependency injection at construction.
    pub fn new(repository: R) -> (r: Self)
        ensures
            r == (UserServiceImpl { repository }),
    {
        Self { repository }
    }
}

impl<R: UserRepository> UserService for UserServiceImpl<R> {
    type Database = R::Transaction;

    open spec fn users(db: &R::Transaction) -> Seq<User> {
        R::users(db)
    }

    open spec fn fallible() -> bool {
        R::fallible()
    }

    fn register(&self, db: &mut R::Transaction, user: &User) -> (r: Result<User, AppError>) {
        self.repository.insert(db, user)
    }

    fn authenticate(&self, db: &R::Transaction, user: &User) -> (r: Result<User, AppError>) {
        let stored = match self.repository.select_by_name(db, &user.user_name) {
            Ok(v) => v,
            Err(e) => {
                return Err(e);
            },
        };
        match stored {
            Some(found) => {
                if found.password == user.password {
                    Ok(found)
                } else {
                    Err(AppError::AuthenticateError(String::from_str(
                        "パスワードが異なります。",
                    )))
                }
            },
            None => Err(AppError::AuthenticateError(String::from_str(
                "存在しないユーザー名です。",
            ))),
        }
    }
}

} // verus!
