//! Domain service contracts: per-entity business operations over a
//! database handle, translating persistence failures into domain errors.
//!
//! Each trait states, over the spec-level view of the database, exactly
//! which result every input earns: which lookups are owed success, which
//! error variant each failure carries, and how a write changes the store.
//! A binding whose storage cannot fail (its `fallible` spec functions are
//! `false`) is thereby total: the `InternalError` case is closed off.

use crate::domain::entities::{Category, Product, User};
use crate::domain::repositories::{
    find_category, find_user, keyword_matches, name_registered, sorted_by_id, DomainDb,
};
use crate::domain::values::{CategoryId, ProductName};
use crate::error::AppError;
use vstd::prelude::*;

verus! {

/// Business operations on categories.
pub trait CategoryService {
    /// The database handle the service works through.
    type Database: DomainDb;

    /// The category rows the handle can see.
    spec fn categories(db: &Self::Database) -> Seq<Category>;

    /// Whether the underlying storage can fail at all.
    spec fn fallible() -> bool;

    /// All categories, in stored order.
    fn all(&self, db: &Self::Database) -> (r: Result<Vec<Category>, AppError>)
        requires
            db.db_inv(),
        ensures
            match r {
                Ok(found) => found@ == Self::categories(db),
                Err(e) => e is InternalError && Self::fallible(),
            },
    ;

    /// The category with the given identifier; a missing row is a
    /// `SearchError`.
    fn by_id(&self, db: &Self::Database, id: &CategoryId) -> (r: Result<Category, AppError>)
        requires
            db.db_inv(),
        ensures
            match r {
                Ok(found) => find_category(Self::categories(db), id@) == Some(found),
                Err(e) => (e is SearchError && find_category(Self::categories(db), id@) is None)
                    || (e is InternalError && Self::fallible()),
            },
    ;
}

/// Business operations on products.
pub trait ProductService {
    /// The database handle the service works through.
    type Database: DomainDb;

    /// The product rows the handle can see.
    spec fn products(db: &Self::Database) -> Seq<Product>;

    /// Whether the underlying storage's reads can fail at all.
    spec fn read_fallible() -> bool;

    /// Whether the underlying storage's writes can fail at all.
    spec fn write_fallible() -> bool;

    /// The products whose names contain the keyword, ascending by
    /// identifier. An empty result is an error condition: `SearchError`.
    fn by_keyword(&self, db: &Self::Database, keyword: &ProductName) -> (r: Result<
        Vec<Product>,
        AppError,
    >)
        requires
            db.db_inv(),
        ensures
            match r {
                Ok(found) => {
                    &&& found@ == keyword_matches(Self::products(db), keyword@)
                    &&& found@.len() > 0
                    &&& sorted_by_id(found@)
                },
                Err(e) => (e is SearchError && keyword_matches(Self::products(db), keyword@).len()
                    == 0) || (e is InternalError && Self::read_fallible()),
            },
    ;

    /// Persist a product; the returned entity carries the store-assigned
    /// identifier.
    fn register(&self, db: &mut Self::Database, product: &Product) -> (r: Result<
        Product,
        AppError,
    >)
        requires
            old(db).db_inv(),
        ensures
            final(db).db_inv(),
            match r {
                Ok(stored) => {
                    &&& Self::products(final(db)) == Self::products(old(db)).push(stored)
                    &&& stored.name == product.name
                    &&& stored.price == product.price
                    &&& stored.category == product.category
                },
                Err(e) => {
                    &&& e is InternalError
                    &&& Self::write_fallible()
                    &&& Self::products(final(db)) == Self::products(old(db))
                },
            },
    ;

    /// Uniqueness pre-check with an inverted-boolean contract: success
    /// means "no product with exactly this name exists"; a stored duplicate
    /// is a `RegisterError`.
    fn exists_by_name(&self, db: &Self::Database, name: &ProductName) -> (r: Result<(), AppError>)
        requires
            db.db_inv(),
        ensures
            match r {
                Ok(_) => !name_registered(Self::products(db), name@),
                Err(e) => (e is RegisterError && name_registered(Self::products(db), name@)) || (
                e is InternalError && Self::read_fallible()),
            },
    ;
}

/// Business operations on users.
pub trait UserService {
    /// The database handle the service works through.
    type Database: DomainDb;

    /// The user rows the handle can see.
    spec fn users(db: &Self::Database) -> Seq<User>;

    /// Whether the underlying storage can fail at all.
    spec fn fallible() -> bool;

    /// Persist a user; the entity is stored and returned as it came.
    fn register(&self, db: &mut Self::Database, user: &User) -> (r: Result<User, AppError>)
        requires
            old(db).db_inv(),
        ensures
            final(db).db_inv(),
            match r {
                Ok(stored) => {
                    &&& stored == *user
                    &&& Self::users(final(db)) == Self::users(old(db)).push(*user)
                },
                Err(e) => {
                    &&& e is InternalError
                    &&& Self::fallible()
                    &&& Self::users(final(db)) == Self::users(old(db))
                },
            },
    ;

    /// Authenticate a candidate whose password already carries its hashed
    /// form. An unknown name and a hash mismatch are both an
    /// `AuthenticateError`; on success the stored user is returned.
    fn authenticate(&self, db: &Self::Database, user: &User) -> (r: Result<User, AppError>)
        requires
            db.db_inv(),
        ensures
            match r {
                Ok(stored) => {
                    &&& find_user(Self::users(db), user.user_name@) == Some(stored)
                    &&& stored.password@ == user.password@
                },
                Err(e) => (e is AuthenticateError && match find_user(
                    Self::users(db),
                    user.user_name@,
                ) {
                    Option::None => true,
                    Option::Some(stored) => stored.password@ != user.password@,
                }) || (e is InternalError && Self::fallible()),
            },
    ;
}

} // verus!
