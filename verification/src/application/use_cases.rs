//! Bindings of the use-case contracts over the domain services.
//!
//! Each binding is a single linear pipeline: validate and convert the
//! form, make the transactional domain-service calls, and map the result
//! to transfer shapes. Failure exits the pipeline immediately; the
//! multi-step registration is consequently not atomic, and its contract
//! says so: a failure after the insert leaves the product persisted.

use crate::app_commons::transfers::{
    dto_of_category, dto_of_product, dto_of_user, CategoryDto, EntityToDto, ProductDto, UserDto,
};
use crate::domain::entities::{sha3_512_hex, Characteristic, Product};
use crate::domain::repositories::{find_category, find_user, keyword_matches, name_registered};
use crate::domain::services::{CategoryService, ProductService, UserService};
use crate::domain::values::ProductName;
use crate::error::AppError;
use crate::presentation::forms::{
    FormToDomain, LoginForm, ProductRegisterForm, ProductSearchForm,
};
use crate::application::app_service::{
    AuthenticateAppService, ProductRegisterAppService, ProductSearchAppService,
};
use vstd::prelude::*;

verus! {

/// Whether every product of the sequence carries its category, as the
/// boundary requires before exposure.
pub open spec fn categories_present(products: Seq<Product>) -> bool {
    forall|i: int| 0 <= i < products.len() ==> (#[trigger] products[i]).category is Some
}

/// The product search use case over an injected product service.
pub struct ProductSearchAppServiceImpl<S> {
    pub service: S,
}

impl<S: ProductService> ProductSearchAppServiceImpl<S> {
    /// Dependency injection at construction.
    pub fn new(service: S) -> (r: Self)
        ensures
            r == (ProductSearchAppServiceImpl { service }),
    {
        Self { service }
    }
}

impl<S: ProductService> ProductSearchAppService for ProductSearchAppServiceImpl<S> {
    type Pool = S::Database;

    type Form = ProductSearchForm;

    open spec fn search_spec(
        &self,
        pool: &S::Database,
        form: &ProductSearchForm,
        r: &Result<Vec<ProductDto>, AppError>,
    ) -> bool {
        let found = keyword_matches(S::products(pool), form.keyword_view());
        match r {
            Ok(dtos) => {
                &&& form.keyword_convertible()
                &&& found.len() > 0
                &&& categories_present(found)
                &&& dtos@.len() == found.len()
                &&& forall|i: int|
                    0 <= i < found.len() ==> dto_of_product(&(#[trigger] dtos@[i]), &found[i])
            },
            Err(e) => {
                ||| (e is ValidationFailure && !form.keyword_convertible())
                ||| (form.keyword_convertible() && e is SearchError && found.len() == 0)
                ||| (form.keyword_convertible() && e is InternalError && (S::read_fallible()
                    || !categories_present(found)))
            },
        }
    }

    fn search(&self, pool: &S::Database, form: &ProductSearchForm) -> (r: Result<
        Vec<ProductDto>,
        AppError,
    >) {
        let keyword: ProductName = match form.convert() {
            Ok(k) => k,
            Err(e) => {
                return Err(e);
            },
        };
        let found = match self.service.by_keyword(pool, &keyword) {
            Ok(v) => v,
            Err(e) => {
                return Err(e);
            },
        };
        let ghost expected = keyword_matches(S::products(pool), form.keyword_view());
        let mut dtos: Vec<ProductDto> = Vec::new();
        let mut i: usize = 0;
        while i < found.len()
            invariant
                i <= found@.len(),
                form.keyword_convertible(),
                expected == keyword_matches(S::products(pool), form.keyword_view()),
                found@ == expected,
                dtos@.len() == i,
                forall|k: int|
                    0 <= k < i ==> (#[trigger] found@[k]).category is Some && dto_of_product(
                        &dtos@[k],
                        &found@[k],
                    ),
            decreases found@.len() - i,
        {
            let row = &found[i];
            match &row.category {
                Some(_) => {},
                None => {
                    proof {
                        assert((#[trigger] expected[i as int]).category is None);
                        assert(!categories_present(expected));
                    }
                    return Err(AppError::InternalError(String::from_str(
                        "商品のカテゴリがありません。",
                    )));
                },
            }
            dtos.push(ProductDto::convert(row));
            i += 1;
        }
        Ok(dtos)
    }
}

/// The product registration use case over injected category and product
/// services sharing one database binding.
pub struct ProductRegisterAppServiceImpl<C, P> {
    pub category_service: C,
    pub product_service: P,
}

impl<C: CategoryService, P: ProductService<Database = C::Database>> ProductRegisterAppServiceImpl<
    C,
    P,
> {
    /// Dependency injection at construction.
    pub fn new(category_service: C, product_service: P) -> (r: Self)
        ensures
            r == (ProductRegisterAppServiceImpl { category_service, product_service }),
    {
        Self { category_service, product_service }
    }
}

impl<C: CategoryService, P: ProductService<Database = C::Database>> ProductRegisterAppService for ProductRegisterAppServiceImpl<
    C,
    P,
> {
    type Pool = C::Database;

    type Form = ProductRegisterForm;

    open spec fn categories_spec(
        &self,
        pool: &C::Database,
        r: &Result<Vec<CategoryDto>, AppError>,
    ) -> bool {
        match r {
            Ok(dtos) => {
                &&& dtos@.len() == C::categories(pool).len()
                &&& forall|i: int|
                    0 <= i < C::categories(pool).len() ==> dto_of_category(
                        &(#[trigger] dtos@[i]),
                        &C::categories(pool)[i],
                    )
            },
            Err(e) => e is InternalError && C::fallible(),
        }
    }

    open spec fn execute_spec(
        &self,
        pre: &C::Database,
        post: &C::Database,
        form: &ProductRegisterForm,
        r: &Result<ProductDto, AppError>,
    ) -> bool {
        match r {
            Ok(dto) => {
                &&& form.fields_convertible()
                &&& !name_registered(P::products(pre), form.name_view())
                &&& exists|stored: Product|
                    {
                        &&& P::products(post) == P::products(pre).push(stored)
                        &&& stored.name@ == form.name_view()
                        &&& stored.price@ == form.price_view()
                        &&& (find_category(C::categories(post), form.category_view())
                            matches Some(category) && dto_of_product(
                            dto,
                            &(Product {
                                id: stored.id,
                                name: stored.name,
                                price: stored.price,
                                category: Some(category),
                            }),
                        ))
                    }
            },
            Err(e) => {
                ||| (e is ValidationFailure && !form.fields_convertible() && P::products(post)
                    == P::products(pre))
                ||| (e is RegisterError && name_registered(P::products(pre), form.name_view())
                    && P::products(post) == P::products(pre))
                ||| (e is InternalError && (P::read_fallible() || P::write_fallible())
                    && P::products(post) == P::products(pre))
                ||| ({
                    &&& ((e is SearchError && find_category(
                        C::categories(post),
                        form.category_view(),
                    ) is None) || (e is InternalError && C::fallible()))
                    &&& exists|stored: Product|
                        P::products(post) == P::products(pre).push(stored) && stored.name@
                            == form.name_view()
                })
            },
        }
    }

    fn categories(&self, pool: &C::Database) -> (r: Result<Vec<CategoryDto>, AppError>) {
        let found = match self.category_service.all(pool) {
            Ok(v) => v,
            Err(e) => {
                return Err(e);
            },
        };
        Ok(CategoryDto::converts(&found))
    }

    fn execute(&self, pool: &mut C::Database, form: &ProductRegisterForm) -> (r: Result<
        ProductDto,
        AppError,
    >) {
        let ghost pre = *pool;
        let product_name = match &form.name {
            Some(n) => match ProductName::try_from(n.clone()) {
                Ok(v) => v,
                Err(e) => {
                    return Err(e);
                },
            },
            None => {
                return Err(AppError::ValidationFailure(String::from_str(
                    "商品名がありません。",
                )));
            },
        };
        match self.product_service.exists_by_name(pool, &product_name) {
            Ok(_) => {},
            Err(e) => {
                return Err(e);
            },
        }
        let product = match form.convert() {
            Ok(p) => p,
            Err(e) => {
                return Err(e);
            },
        };
        let registered = match self.product_service.register(pool, &product) {
            Ok(p) => p,
            Err(e) => {
                return Err(e);
            },
        };
        // Registration stores only the category's foreign key, so the
        // category is re-fetched and attached before exposure. The source
        // design dropped a resolution failure silently, which would expose
        // a product without its category; here the failure fails the whole
        // use case instead, and the contract says which error comes back.
        let category_id = match &registered.category {
            Some(category) => category.get(),
            None => unreached(),
        };
        let resolved = match self.category_service.by_id(pool, &category_id) {
            Ok(c) => c,
            Err(e) => {
                proof {
                    assert(P::products(pool) == P::products(&pre).push(registered));
                }
                return Err(e);
            },
        };
        let exposed = Product {
            id: registered.id,
            name: registered.name,
            price: registered.price,
            category: Some(resolved),
        };
        let dto = ProductDto::convert(&exposed);
        proof {
            assert(P::products(pool) == P::products(&pre).push(registered));
            assert(exposed.id == registered.id);
        }
        Ok(dto)
    }
}

/// The authentication use case over an injected user service.
pub struct AuthenticateAppServiceImpl<U> {
    pub service: U,
}

impl<U: UserService> AuthenticateAppServiceImpl<U> {
    /// Dependency injection at construction.
    pub fn new(service: U) -> (r: Self)
        ensures
            r == (AuthenticateAppServiceImpl { service }),
    {
        Self { service }
    }
}

impl<U: UserService> AuthenticateAppService for AuthenticateAppServiceImpl<U> {
    type Pool = U::Database;

    type Form = LoginForm;

    open spec fn execute_spec(
        &self,
        pool: &U::Database,
        form: &LoginForm,
        r: &Result<UserDto, AppError>,
    ) -> bool {
        match r {
            Ok(dto) => {
                &&& form.fields_convertible()
                &&& (find_user(U::users(pool), form.name_view()) matches Some(stored)
                    && stored.password@ == sha3_512_hex(form.password_view()) && dto_of_user(
                    dto,
                    &stored,
                ))
            },
            Err(e) => {
                ||| (e is ValidationFailure && !form.fields_convertible())
                ||| (form.fields_convertible() && e is AuthenticateError && match find_user(
                    U::users(pool),
                    form.name_view(),
                ) {
                    Option::None => true,
                    Option::Some(stored) => stored.password@ != sha3_512_hex(
                        form.password_view(),
                    ),
                })
                ||| (e is InternalError && U::fallible())
            },
        }
    }

    fn execute(&self, pool: &U::Database, form: &LoginForm) -> (r: Result<UserDto, AppError>) {
        let candidate = match form.convert() {
            Ok(u) => u,
            Err(e) => {
                return Err(e);
            },
        };
        let authenticated = match self.service.authenticate(pool, &candidate) {
            Ok(u) => u,
            Err(e) => {
                return Err(e);
            },
        };
        Ok(UserDto::convert(&authenticated))
    }
}

} // verus!
