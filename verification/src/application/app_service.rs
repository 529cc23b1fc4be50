//! Use-case contracts of the application layer.
//!
//! Each trait fixes the shape of one use case over an opaque pool handle
//! and a boundary form. What a binding promises of each call is written in
//! a spec function the binding itself defines openly, so a caller of a
//! concrete binding sees its full contract while the trait stays neutral
//! about the storage behind it.

use crate::app_commons::transfers::{CategoryDto, ProductDto, UserDto};
use crate::domain::repositories::DomainDb;
use crate::error::AppError;
use vstd::prelude::*;

verus! {

/// The product search use case.
pub trait ProductSearchAppService {
    /// The pool handle the binding works through.
    type Pool: DomainDb;

    /// The boundary form the search is driven by.
    type Form;

    /// What `search` returns for this pool and form.
    spec fn search_spec(
        &self,
        pool: &Self::Pool,
        form: &Self::Form,
        r: &Result<Vec<ProductDto>, AppError>,
    ) -> bool;

    /// Run the search pipeline: validate, delegate, map to transfer
    /// shapes.
    fn search(&self, pool: &Self::Pool, form: &Self::Form) -> (r: Result<
        Vec<ProductDto>,
        AppError,
    >)
        requires
            pool.db_inv(),
        ensures
            self.search_spec(pool, form, &r),
    ;
}

/// The product registration use case.
pub trait ProductRegisterAppService {
    /// The pool handle the binding works through.
    type Pool: DomainDb;

    /// The boundary form the registration is driven by.
    type Form;

    /// What `categories` returns for this pool.
    spec fn categories_spec(&self, pool: &Self::Pool, r: &Result<Vec<CategoryDto>, AppError>) -> bool;

    /// What `execute` returns, over the pool before and after the call.
    spec fn execute_spec(
        &self,
        pre: &Self::Pool,
        post: &Self::Pool,
        form: &Self::Form,
        r: &Result<ProductDto, AppError>,
    ) -> bool;

    /// The category list offered to the registration form.
    fn categories(&self, pool: &Self::Pool) -> (r: Result<Vec<CategoryDto>, AppError>)
        requires
            pool.db_inv(),
        ensures
            self.categories_spec(pool, &r),
    ;

    /// Run the registration pipeline: uniqueness pre-check, conversion,
    /// persistence, category resolution, transfer shape.
    fn execute(&self, pool: &mut Self::Pool, form: &Self::Form) -> (r: Result<
        ProductDto,
        AppError,
    >)
        requires
            old(pool).db_inv(),
        ensures
            final(pool).db_inv(),
            self.execute_spec(old(pool), final(pool), form, &r),
    ;
}

/// The authentication use case.
pub trait AuthenticateAppService {
    /// The pool handle the binding works through.
    type Pool: DomainDb;

    /// The boundary form the authentication is driven by.
    type Form;

    /// What `execute` returns for this pool and form.
    spec fn execute_spec(
        &self,
        pool: &Self::Pool,
        form: &Self::Form,
        r: &Result<UserDto, AppError>,
    ) -> bool;

    /// Run the authentication pipeline: convert the login form, delegate,
    /// map to the transfer shape.
    fn execute(&self, pool: &Self::Pool, form: &Self::Form) -> (r: Result<UserDto, AppError>)
        requires
            pool.db_inv(),
        ensures
            self.execute_spec(pool, form, &r),
    ;
}

/// The user registration use case, for a presentation binding to
/// implement.
pub trait UserRegisterAppService {
    /// The pool handle the binding works through.
    type Pool: DomainDb;

    /// The boundary form the registration is driven by.
    type Form;

    /// What `execute` returns, over the pool before and after the call.
    spec fn execute_spec(
        &self,
        pre: &Self::Pool,
        post: &Self::Pool,
        form: &Self::Form,
        r: &Result<(), AppError>,
    ) -> bool;

    /// Run the registration pipeline.
    fn execute(&self, pool: &mut Self::Pool, form: &Self::Form) -> (r: Result<(), AppError>)
        requires
            old(pool).db_inv(),
        ensures
            final(pool).db_inv(),
            self.execute_spec(old(pool), final(pool), form, &r),
    ;
}

} // verus!
