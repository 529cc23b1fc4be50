//! Repository contracts: abstract persistence per entity, parameterized by
//! an opaque transaction handle.
//!
//! A repository promises nothing about when storage fails; it only promises
//! what every successful call returns, over a spec-level view of the rows
//! the handle can see. A binding whose fallibility spec functions are
//! `false` additionally promises that the calls they cover never fail,
//! which is how the in-memory binding makes the domain services total.

use crate::domain::entities::{Category, Product, User};
use crate::domain::values::{CategoryId, ProductName, UserName};
use crate::error::AppError;
use crate::text::contains_text;
use vstd::prelude::*;

verus! {

/// An opaque transaction/store handle carrying a well-formedness invariant.
/// Every repository operation requires it and every mutating operation
/// preserves it, so that one handle can be threaded through several
/// repositories and services.
pub trait DomainDb {
    /// Well-formedness of the handle's visible state.
    spec fn db_inv(&self) -> bool;
}

/// The first category with identifier `id`, if any.
pub open spec fn find_category(categories: Seq<Category>, id: int) -> Option<Category>
    decreases categories.len(),
{
    if categories.len() == 0 {
        None
    } else if categories[0].id@ == id {
        Some(categories[0])
    } else {
        find_category(categories.skip(1), id)
    }
}

/// The first user with name `name`, if any.
pub open spec fn find_user(users: Seq<User>, name: Seq<char>) -> Option<User>
    decreases users.len(),
{
    if users.len() == 0 {
        None
    } else if users[0].user_name@ == name {
        Some(users[0])
    } else {
        find_user(users.skip(1), name)
    }
}

/// The products whose names contain `keyword`, keeping the stored order.
pub open spec fn keyword_matches(products: Seq<Product>, keyword: Seq<char>) -> Seq<Product>
    decreases products.len(),
{
    if products.len() == 0 {
        Seq::empty()
    } else {
        let rest = keyword_matches(products.drop_last(), keyword);
        if contains_text(products.last().name@, keyword) {
            rest.push(products.last())
        } else {
            rest
        }
    }
}

/// Whether some product bears exactly this name.
pub open spec fn name_registered(products: Seq<Product>, name: Seq<char>) -> bool {
    exists|i: int| 0 <= i < products.len() && products[i].name@ == name
}

/// Strictly ascending product identifiers.
pub open spec fn sorted_by_id(products: Seq<Product>) -> bool {
    forall|i: int, j: int| 0 <= i < j < products.len() ==> products[i].id@ < products[j].id@
}

/// Law: every product a keyword query selects does contain the keyword.
pub proof fn lemma_keyword_matches_sound(products: Seq<Product>, keyword: Seq<char>)
    ensures
        forall|j: int|
            0 <= j < keyword_matches(products, keyword).len() ==> contains_text(
                (#[trigger] keyword_matches(products, keyword)[j]).name@,
                keyword,
            ),
    decreases products.len(),
{
    if products.len() > 0 {
        let rest = keyword_matches(products.drop_last(), keyword);
        lemma_keyword_matches_sound(products.drop_last(), keyword);
        assert forall|j: int|
            0 <= j < keyword_matches(products, keyword).len() implies contains_text(
            (#[trigger] keyword_matches(products, keyword)[j]).name@,
            keyword,
        ) by {
            if j < rest.len() {
                assert(keyword_matches(products, keyword)[j] == rest[j]);
            }
        }
    }
}

/// Law: a keyword query selects every product that contains the keyword;
/// nothing that matches is dropped.
pub proof fn lemma_keyword_matches_complete(products: Seq<Product>, keyword: Seq<char>)
    ensures
        forall|i: int|
            0 <= i < products.len() && contains_text((#[trigger] products[i]).name@, keyword)
                ==> keyword_matches(products, keyword).contains(products[i]),
    decreases products.len(),
{
    if products.len() > 0 {
        let dropped = products.drop_last();
        let rest = keyword_matches(dropped, keyword);
        lemma_keyword_matches_complete(dropped, keyword);
        assert forall|i: int|
            0 <= i < products.len() && contains_text((#[trigger] products[i]).name@, keyword)
                implies keyword_matches(products, keyword).contains(products[i]) by {
            if i < products.len() - 1 {
                assert(dropped[i] == products[i]);
                assert(rest.contains(products[i]));
                let w = choose|w: int| 0 <= w < rest.len() && rest[w] == products[i];
                assert(keyword_matches(products, keyword)[w] == products[i]);
            } else {
                assert(products[i] == products.last());
                let found = keyword_matches(products, keyword);
                assert(found == rest.push(products.last()));
                assert(found[found.len() - 1] == products[i]);
            }
        }
    }
}

/// Law: a category lookup returns the first stored row with the
/// identifier, and returns nothing exactly when no row carries it.
pub proof fn lemma_find_category_characterized(categories: Seq<Category>, id: int)
    ensures
        match find_category(categories, id) {
            Some(found) => {
                &&& found.id@ == id
                &&& exists|i: int| 0 <= i < categories.len() && categories[i] == found
            },
            None => forall|i: int|
                0 <= i < categories.len() ==> (#[trigger] categories[i]).id@ != id,
        },
    decreases categories.len(),
{
    if categories.len() > 0 && categories[0].id@ != id {
        let rest = categories.skip(1);
        lemma_find_category_characterized(rest, id);
        match find_category(categories, id) {
            Some(found) => {
                let w = choose|w: int| 0 <= w < rest.len() && rest[w] == found;
                assert(categories[w + 1] == found);
            },
            None => {
                assert forall|i: int|
                    0 <= i < categories.len() implies (#[trigger] categories[i]).id@ != id by {
                    if i > 0 {
                        assert(rest[i - 1] == categories[i]);
                    }
                }
            },
        }
    }
}

/// Law: a user lookup returns the first stored row with the name, and
/// returns nothing exactly when no row carries it.
pub proof fn lemma_find_user_characterized(users: Seq<User>, name: Seq<char>)
    ensures
        match find_user(users, name) {
            Some(found) => {
                &&& found.user_name@ == name
                &&& exists|i: int| 0 <= i < users.len() && users[i] == found
            },
            None => forall|i: int|
                0 <= i < users.len() ==> (#[trigger] users[i]).user_name@ != name,
        },
    decreases users.len(),
{
    if users.len() > 0 && users[0].user_name@ != name {
        let rest = users.skip(1);
        lemma_find_user_characterized(rest, name);
        match find_user(users, name) {
            Some(found) => {
                let w = choose|w: int| 0 <= w < rest.len() && rest[w] == found;
                assert(users[w + 1] == found);
            },
            None => {
                assert forall|i: int|
                    0 <= i < users.len() implies (#[trigger] users[i]).user_name@ != name by {
                    if i > 0 {
                        assert(rest[i - 1] == users[i]);
                    }
                }
            },
        }
    }
}

/// Persistence contract for categories.
pub trait CategoryRepository {
    /// The opaque transaction handle the binding works through.
    type Transaction: DomainDb;

    /// The category rows the handle can see.
    spec fn categories(tx: &Self::Transaction) -> Seq<Category>;

    /// Whether this binding's storage can fail at all.
    spec fn fallible() -> bool;

    /// All categories, in stored order.
    fn select_all(&self, tx: &Self::Transaction) -> (r: Result<Vec<Category>, AppError>)
        requires
            tx.db_inv(),
        ensures
            match r {
                Ok(found) => found@ == Self::categories(tx),
                Err(e) => e is InternalError && Self::fallible(),
            },
    ;

    /// The category with the given identifier, if stored.
    fn select_by_id(&self, tx: &Self::Transaction, id: &CategoryId) -> (r: Result<
        Option<Category>,
        AppError,
    >)
        requires
            tx.db_inv(),
        ensures
            match r {
                Ok(found) => found == find_category(Self::categories(tx), id@),
                Err(e) => e is InternalError && Self::fallible(),
            },
    ;
}

/// Persistence contract for products.
pub trait ProductRepository {
    /// The opaque transaction handle the binding works through.
    type Transaction: DomainDb;

    /// The product rows the handle can see.
    spec fn products(tx: &Self::Transaction) -> Seq<Product>;

    /// Whether this binding's reads can fail at all.
    spec fn read_fallible() -> bool;

    /// Whether this binding's writes can fail at all.
    spec fn write_fallible() -> bool;

    /// Substring match on the product name, ascending by identifier.
    fn select_by_name_like(&self, tx: &Self::Transaction, keyword: &ProductName) -> (r: Result<
        Vec<Product>,
        AppError,
    >)
        requires
            tx.db_inv(),
        ensures
            match r {
                Ok(found) => {
                    &&& found@ == keyword_matches(Self::products(tx), keyword@)
                    &&& sorted_by_id(found@)
                },
                Err(e) => e is InternalError && Self::read_fallible(),
            },
    ;

    /// Persist a new product; the store assigns a fresh identifier, larger
    /// than every identifier already stored, and the returned entity carries
    /// it.
    fn insert(&self, tx: &mut Self::Transaction, product: &Product) -> (r: Result<
        Product,
        AppError,
    >)
        requires
            old(tx).db_inv(),
        ensures
            final(tx).db_inv(),
            match r {
                Ok(stored) => {
                    &&& Self::products(final(tx)) == Self::products(old(tx)).push(stored)
                    &&& stored.name == product.name
                    &&& stored.price == product.price
                    &&& stored.category == product.category
                    &&& forall|i: int|
                        0 <= i < Self::products(old(tx)).len() ==> Self::products(old(tx))[i].id@
                            < stored.id@
                },
                Err(e) => {
                    &&& e is InternalError
                    &&& Self::write_fallible()
                    &&& Self::products(final(tx)) == Self::products(old(tx))
                },
            },
    ;

    /// Whether a product with exactly this name is stored.
    fn exists_by_name(&self, tx: &Self::Transaction, name: &ProductName) -> (r: Result<bool, AppError>)
        requires
            tx.db_inv(),
        ensures
            match r {
                Ok(found) => found == name_registered(Self::products(tx), name@),
                Err(e) => e is InternalError && Self::read_fallible(),
            },
    ;
}

/// Persistence contract for users.
pub trait UserRepository {
    /// The opaque transaction handle the binding works through.
    type Transaction: DomainDb;

    /// The user rows the handle can see.
    spec fn users(tx: &Self::Transaction) -> Seq<User>;

    /// Whether this binding's storage can fail at all.
    spec fn fallible() -> bool;

    /// The first stored user with the given name, if any.
    fn select_by_name(&self, tx: &Self::Transaction, user_name: &UserName) -> (r: Result<
        Option<User>,
        AppError,
    >)
        requires
            tx.db_inv(),
        ensures
            match r {
                Ok(found) => found == find_user(Self::users(tx), user_name@),
                Err(e) => e is InternalError && Self::fallible(),
            },
    ;

    /// Persist a new user. The entity is stored and returned as it came;
    /// its generated identifier is kept.
    fn insert(&self, tx: &mut Self::Transaction, user: &User) -> (r: Result<User, AppError>)
        requires
            old(tx).db_inv(),
        ensures
            final(tx).db_inv(),
            match r {
                Ok(stored) => {
                    &&& stored == *user
                    &&& Self::users(final(tx)) == Self::users(old(tx)).push(*user)
                },
                Err(e) => {
                    &&& e is InternalError
                    &&& Self::fallible()
                    &&& Self::users(final(tx)) == Self::users(old(tx))
                },
            },
    ;
}

} // verus!
