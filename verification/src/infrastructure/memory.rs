//! The in-memory binding of the repository contracts.
//!
//! [`MemoryDb`] plays both roles of the persistence collaborator: it is the
//! database handle and the transaction handle at once. Its well-formedness
//! invariant keeps the product rows strictly ascending by identifier, below
//! the next identifier the store will assign, which is what lets keyword
//! queries promise their ascending order. Reads never fail here; the only
//! write that can fail is a product insert once the identifier space is
//! exhausted.

use crate::domain::entities::{Category, Characteristic, Product, User};
use crate::domain::repositories::{
    find_category, find_user, keyword_matches, sorted_by_id, CategoryRepository,
    DomainDb, ProductRepository, UserRepository,
};
use crate::domain::values::{CategoryId, ProductId, ProductName, UserName, ValueInto};
use crate::error::AppError;
use crate::text::contains_str;
use vstd::prelude::*;

verus! {

/// Every element of `found` is one of the first `n` rows of `rows`.
spec fn drawn_from(found: Seq<Product>, rows: Seq<Product>, n: int) -> bool {
    forall|j: int|
        #![trigger found[j]]
        0 <= j < found.len() ==> exists|k: int| 0 <= k < n && found[j] == #[trigger] rows[k]
}

/// An in-memory store of the three entity tables.
pub struct MemoryDb {
    categories: Vec<Category>,
    products: Vec<Product>,
    users: Vec<User>,
    next_product_id: i32,
}

impl MemoryDb {
    /// The stored categories, in stored order.
    pub closed spec fn categories_view(&self) -> Seq<Category> {
        self.categories@
    }

    /// The stored products, in stored order.
    pub closed spec fn products_view(&self) -> Seq<Product> {
        self.products@
    }

    /// The stored users, in stored order.
    pub closed spec fn users_view(&self) -> Seq<User> {
        self.users@
    }

    /// The identifier the store will assign to the next inserted product.
    pub closed spec fn next_product_id_view(&self) -> int {
        self.next_product_id as int
    }

    /// Well-formedness: product rows strictly ascending by identifier, all
    /// below the next identifier to be assigned.
    pub open spec fn wf(&self) -> bool {
        &&& sorted_by_id(self.products_view())
        &&& forall|i: int|
            0 <= i < self.products_view().len() ==> self.products_view()[i].id@
                < self.next_product_id_view()
        &&& 1 <= self.next_product_id_view()
    }

    /// A fresh, empty store.
    pub fn new() -> (r: Self)
        ensures
            r.wf(),
            r.categories_view() == Seq::<Category>::empty(),
            r.products_view() == Seq::<Product>::empty(),
            r.users_view() == Seq::<User>::empty(),
    {
        Self { categories: Vec::new(), products: Vec::new(), users: Vec::new(), next_product_id: 1 }
    }

    /// Seed one category row.
    pub fn add_category(&mut self, category: Category)
        requires
            old(self).wf(),
        ensures
            final(self).wf(),
            final(self).categories_view() == old(self).categories_view().push(category),
            final(self).products_view() == old(self).products_view(),
            final(self).users_view() == old(self).users_view(),
    {
        self.categories.push(category);
    }

    /// Seed one user row.
    pub fn add_user(&mut self, user: User)
        requires
            old(self).wf(),
        ensures
            final(self).wf(),
            final(self).users_view() == old(self).users_view().push(user),
            final(self).categories_view() == old(self).categories_view(),
            final(self).products_view() == old(self).products_view(),
    {
        self.users.push(user);
    }
}

impl DomainDb for MemoryDb {
    open spec fn db_inv(&self) -> bool {
        self.wf()
    }
}

/// The in-memory category repository.
pub struct CategoryRepositoryImpl;

impl CategoryRepositoryImpl {
    /// Plain constructor; the binding itself is stateless.
    pub fn new() -> (r: Self)
        ensures
            r == CategoryRepositoryImpl,
    {
        Self
    }
}

impl CategoryRepository for CategoryRepositoryImpl {
    type Transaction = MemoryDb;

    open spec fn categories(tx: &MemoryDb) -> Seq<Category> {
        tx.categories_view()
    }

    open spec fn fallible() -> bool {
        false
    }

    fn select_all(&self, tx: &MemoryDb) -> (r: Result<Vec<Category>, AppError>) {
        let mut found: Vec<Category> = Vec::new();
        let mut i: usize = 0;
        while i < tx.categories.len()
            invariant
                i <= tx.categories@.len(),
                found@ == tx.categories@.subrange(0, i as int),
            decreases tx.categories@.len() - i,
        {
            found.push(tx.categories[i].clone());
            proof {
                assert(found@ =~= tx.categories@.subrange(0, i + 1 as int));
            }
            i += 1;
        }
        proof {
            assert(found@ =~= tx.categories@);
        }
        Ok(found)
    }

    fn select_by_id(&self, tx: &MemoryDb, id: &CategoryId) -> (r: Result<
        Option<Category>,
        AppError,
    >) {
        proof {
            assert(tx.categories@.skip(0) =~= tx.categories@);
        }
        let mut i: usize = 0;
        while i < tx.categories.len()
            invariant
                i <= tx.categories@.len(),
                find_category(tx.categories@, id@) == find_category(
                    tx.categories@.skip(i as int),
                    id@,
                ),
            decreases tx.categories@.len() - i,
        {
            let row = &tx.categories[i];
            if row.equals(id) {
                return Ok(Some(row.clone()));
            }
            proof {
                assert(tx.categories@.skip(i as int).skip(1) =~= tx.categories@.skip(i + 1 as int));
            }
            i += 1;
        }
        proof {
            assert(tx.categories@.skip(i as int).len() == 0);
        }
        Ok(None)
    }
}

/// The in-memory product repository.
pub struct ProductRepositoryImpl;

impl ProductRepositoryImpl {
    /// Plain constructor; the binding itself is stateless.
    pub fn new() -> (r: Self)
        ensures
            r == ProductRepositoryImpl,
    {
        Self
    }
}

impl ProductRepository for ProductRepositoryImpl {
    type Transaction = MemoryDb;

    open spec fn products(tx: &MemoryDb) -> Seq<Product> {
        tx.products_view()
    }

    open spec fn read_fallible() -> bool {
        false
    }

    open spec fn write_fallible() -> bool {
        true
    }

    fn select_by_name_like(&self, tx: &MemoryDb, keyword: &ProductName) -> (r: Result<
        Vec<Product>,
        AppError,
    >) {
        let keyword_text = keyword.value();
        let mut found: Vec<Product> = Vec::new();
        let mut i: usize = 0;
        while i < tx.products.len()
            invariant
                i <= tx.products@.len(),
                keyword_text@ == keyword@,
                tx.wf(),
                found@ == keyword_matches(tx.products@.subrange(0, i as int), keyword@),
                drawn_from(found@, tx.products@, i as int),
                sorted_by_id(found@),
            decreases tx.products@.len() - i,
        {
            let row = &tx.products[i];
            let ghost prior = found@;
            let name_text = row.name.value();
            if contains_str(name_text.as_str(), keyword_text.as_str()) {
                proof {
                    assert forall|j: int| 0 <= j < prior.len() implies prior[j].id@
                        < tx.products@[i as int].id@ by {
                        let k = choose|k: int| 0 <= k < i && prior[j] == #[trigger] tx.products@[k];
                        assert(tx.products@[k].id@ < tx.products@[i as int].id@);
                    }
                }
                found.push(row.clone());
            }
            proof {
                let prefix = tx.products@.subrange(0, i + 1 as int);
                assert(prefix.drop_last() =~= tx.products@.subrange(0, i as int));
                assert(prefix.last() == tx.products@[i as int]);
                assert(found@ == keyword_matches(prefix, keyword@));
                assert forall|j: int| #![trigger found@[j]] 0 <= j < found@.len() implies exists|k: int|
                    0 <= k < i + 1 && found@[j] == #[trigger] tx.products@[k] by {
                    if j < prior.len() {
                        let k = choose|k: int| 0 <= k < i && prior[j] == #[trigger] tx.products@[k];
                        assert(0 <= k < i + 1 && found@[j] == tx.products@[k]);
                    } else {
                        assert(found@[j] == tx.products@[i as int]);
                    }
                }
                assert(drawn_from(found@, tx.products@, i + 1 as int));
            }
            i += 1;
        }
        proof {
            assert(tx.products@.subrange(0, i as int) =~= tx.products@);
        }
        Ok(found)
    }

    fn insert(&self, tx: &mut MemoryDb, product: &Product) -> (r: Result<Product, AppError>) {
        if tx.next_product_id == i32::MAX {
            return Err(AppError::InternalError(String::from_str(
                "商品番号が上限に達しました。",
            )));
        }
        let id = match ProductId::try_from(tx.next_product_id) {
            Ok(v) => v,
            Err(_) => {
                proof {
                    assert(false);
                }
                return Err(AppError::InternalError(String::from_str("不正な商品番号です。")));
            },
        };
        let stored = Product {
            id,
            name: product.name.clone(),
            price: product.price.clone(),
            category: match &product.category {
                Some(c) => Some(c.clone()),
                None => None,
            },
        };
        tx.products.push(stored.clone());
        tx.next_product_id = tx.next_product_id + 1;
        Ok(stored)
    }

    fn exists_by_name(&self, tx: &MemoryDb, name: &ProductName) -> (r: Result<bool, AppError>) {
        let mut i: usize = 0;
        while i < tx.products.len()
            invariant
                i <= tx.products@.len(),
                forall|k: int| 0 <= k < i ==> tx.products@[k].name@ != name@,
            decreases tx.products@.len() - i,
        {
            let row = &tx.products[i];
            if row.name == *name {
                return Ok(true);
            }
            i += 1;
        }
        Ok(false)
    }
}

/// The in-memory user repository.
pub struct UserRepositoryImpl;

impl UserRepositoryImpl {
    /// Plain constructor; the binding itself is stateless.
    pub fn new() -> (r: Self)
        ensures
            r == UserRepositoryImpl,
    {
        Self
    }
}

impl UserRepository for UserRepositoryImpl {
    type Transaction = MemoryDb;

    open spec fn users(tx: &MemoryDb) -> Seq<User> {
        tx.users_view()
    }

    open spec fn fallible() -> bool {
        false
    }

    fn select_by_name(&self, tx: &MemoryDb, user_name: &UserName) -> (r: Result<
        Option<User>,
        AppError,
    >) {
        proof {
            assert(tx.users@.skip(0) =~= tx.users@);
        }
        let mut i: usize = 0;
        while i < tx.users.len()
            invariant
                i <= tx.users@.len(),
                find_user(tx.users@, user_name@) == find_user(tx.users@.skip(i as int), user_name@),
            decreases tx.users@.len() - i,
        {
            let row = &tx.users[i];
            if row.user_name == *user_name {
                return Ok(Some(row.clone()));
            }
            proof {
                assert(tx.users@.skip(i as int).skip(1) =~= tx.users@.skip(i + 1 as int));
            }
            i += 1;
        }
        proof {
            assert(tx.users@.skip(i as int).len() == 0);
        }
        Ok(None)
    }

    fn insert(&self, tx: &mut MemoryDb, user: &User) -> (r: Result<User, AppError>) {
        tx.users.push(user.clone());
        Ok(user.clone())
    }
}

} // verus!
