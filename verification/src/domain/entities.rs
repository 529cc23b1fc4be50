//! Entities: aggregates with a stable identity.
//!
//! `Category`, `Product` and `User` are built from validated value objects.
//! Identity is carried by the identifier value object alone; the uniform
//! identity operations live in the [`Characteristic`] trait.

use crate::domain::values::{
    CategoryId, CategoryName, Mail, Password, ProductId, ProductName, ProductPrice, UserId,
    UserName, ValueInto,
};
use crate::error::AppError;
use vstd::prelude::*;

verus! {

/// Uniform identity operations of an entity.
pub trait Characteristic: Sized {
    /// The identifier value object carrying the entity's identity.
    type Identifier;

    /// The current identifier of the entity.
    spec fn identity(&self) -> Self::Identifier;

    /// What it means for the entity's identity to equal `value`:
    /// comparison of the wrapped primitive values, not of whole entities.
    spec fn identity_eq(&self, value: &Self::Identifier) -> bool;

    /// The same entity, with its identifier replaced by `id`.
    spec fn with_identity(&self, id: &Self::Identifier) -> Self;

    /// Replace the identifier, e.g. after a store assigned a generated key.
    /// Every other attribute is kept.
    fn change(&mut self, value: &Self::Identifier) -> (r: Result<(), AppError>)
        ensures
            r is Ok,
            *final(self) == old(self).with_identity(value),
    ;

    /// The current identifier.
    fn get(&self) -> (r: Self::Identifier)
        ensures
            r == self.identity(),
    ;

    /// Whether the entity's identity equals `value`.
    fn equals(&self, value: &Self::Identifier) -> (r: bool)
        ensures
            r == self.identity_eq(value),
    ;
}

/// A product category.
#[derive(Debug)]
pub struct Category {
    pub id: CategoryId,
    pub name: CategoryName,
}

impl Category {
    /// Plain constructor from validated value objects.
    pub fn new(id: CategoryId, name: CategoryName) -> (r: Self)
        ensures
            r == (Category { id, name }),
    {
        Self { id, name }
    }
}

impl Clone for Category {
    fn clone(&self) -> (r: Self)
        ensures
            r == *self,
    {
        Category { id: self.id.clone(), name: self.name.clone() }
    }
}

impl Characteristic for Category {
    type Identifier = CategoryId;

    open spec fn identity(&self) -> CategoryId {
        self.id
    }

    open spec fn identity_eq(&self, value: &CategoryId) -> bool {
        self.id@ == value@
    }

    open spec fn with_identity(&self, id: &CategoryId) -> Category {
        Category { id: *id, name: self.name }
    }

    fn change(&mut self, value: &CategoryId) -> (r: Result<(), AppError>) {
        self.id = value.clone();
        Ok(())
    }

    fn get(&self) -> (r: CategoryId) {
        self.id.clone()
    }

    fn equals(&self, value: &CategoryId) -> (r: bool) {
        self.id == *value
    }
}

/// A product. The category may be absent during partial construction but is
/// expected to be populated before the entity is exposed at the boundary.
#[derive(Debug)]
pub struct Product {
    pub id: ProductId,
    pub name: ProductName,
    pub price: ProductPrice,
    pub category: Option<Category>,
}

impl Product {
    /// Plain constructor from validated value objects.
    pub fn new(id: ProductId, name: ProductName, price: ProductPrice, category: Option<
        Category,
    >) -> (r: Self)
        ensures
            r == (Product { id, name, price, category }),
    {
        Self { id, name, price, category }
    }
}

impl Clone for Product {
    fn clone(&self) -> (r: Self)
        ensures
            r == *self,
    {
        Product {
            id: self.id.clone(),
            name: self.name.clone(),
            price: self.price.clone(),
            category: match &self.category {
                Some(c) => Some(c.clone()),
                None => None,
            },
        }
    }
}

impl Characteristic for Product {
    type Identifier = ProductId;

    open spec fn identity(&self) -> ProductId {
        self.id
    }

    open spec fn identity_eq(&self, value: &ProductId) -> bool {
        self.id@ == value@
    }

    open spec fn with_identity(&self, id: &ProductId) -> Product {
        Product { id: *id, name: self.name, price: self.price, category: self.category }
    }

    fn change(&mut self, value: &ProductId) -> (r: Result<(), AppError>) {
        self.id = value.clone();
        Ok(())
    }

    fn get(&self) -> (r: ProductId) {
        self.id.clone()
    }

    fn equals(&self, value: &ProductId) -> (r: bool) {
        self.id == *value
    }
}

/// The SHA3-512 digest of a text, rendered as lowercase hex characters.
/// Named, not spelled out: the digest is a pure function of the input, and
/// its value is established only by the hashing crate itself.
pub uninterp spec fn sha3_512_hex(s: Seq<char>) -> Seq<char>;

/// Relies on `easy_hasher::easy_hasher::sha3_512` followed by
/// `Hash::to_hex_string`: the SHA3-512 digest of the text, a 64-byte value
/// rendered as exactly 128 hex characters, depending on the input alone.
#[verifier::external_body]
fn hash_password_text(s: &String) -> (r: String)
    ensures
        r@ == sha3_512_hex(s@),
        r@.len() == 128,
{
    easy_hasher::easy_hasher::sha3_512(s).to_hex_string()
}

/// Relies on `uuid::Uuid::new_v4` and its `Display` form: a freshly drawn
/// random version-4 UUID in the 36-character hyphenated text form. The draw
/// is random, so nothing beyond the shape is stated, and no two calls are
/// related.
#[verifier::external_body]
fn generate_user_id_text() -> (r: String)
    ensures
        r@.len() == 36,
{
    uuid::Uuid::new_v4().to_string()
}

/// A user of the shop.
#[derive(Debug)]
pub struct User {
    pub user_id: UserId,
    pub user_name: UserName,
    pub password: Password,
    pub mail: Mail,
}

impl User {
    /// Create a brand-new user: draws a fresh random identifier and stores
    /// the one-way hash of the submitted raw password, never the raw text.
    pub fn new(user_name: UserName, password: Password, mail: Mail) -> (r: Result<
        User,
        AppError,
    >)
        ensures
            match r {
                Ok(u) => {
                    &&& u.user_name == user_name
                    &&& u.mail == mail
                    &&& u.password@ == sha3_512_hex(password@)
                    &&& u.user_id@.len() == 36
                },
                Err(_) => false,
            },
    {
        let id_text = generate_user_id_text();
        let raw = password.value();
        let hashed = hash_password_text(&raw);
        let user_id = match UserId::try_from(id_text) {
            Ok(v) => v,
            Err(e) => {
                return Err(e);
            },
        };
        let stored = match Password::try_from(hashed) {
            Ok(v) => v,
            Err(e) => {
                return Err(e);
            },
        };
        Ok(Self { user_id, user_name, password: stored, mail })
    }

    /// Rebuild a user from already-persisted, already-hashed values; used
    /// exclusively when materializing a user from storage. Never hashes
    /// again: hashing data read from storage would corrupt authentication.
    pub fn rebuilding(user_id: UserId, user_name: UserName, password: Password, mail: Mail) -> (r:
        User)
        ensures
            r == (User { user_id, user_name, password, mail }),
    {
        Self { user_id, user_name, password, mail }
    }
}

impl Clone for User {
    fn clone(&self) -> (r: Self)
        ensures
            r == *self,
    {
        User {
            user_id: self.user_id.clone(),
            user_name: self.user_name.clone(),
            password: self.password.clone(),
            mail: self.mail.clone(),
        }
    }
}

impl Characteristic for User {
    type Identifier = UserId;

    open spec fn identity(&self) -> UserId {
        self.user_id
    }

    open spec fn identity_eq(&self, value: &UserId) -> bool {
        self.user_id@ == value@
    }

    open spec fn with_identity(&self, id: &UserId) -> User {
        User {
            user_id: *id,
            user_name: self.user_name,
            password: self.password,
            mail: self.mail,
        }
    }

    fn change(&mut self, value: &UserId) -> (r: Result<(), AppError>) {
        self.user_id = value.clone();
        Ok(())
    }

    fn get(&self) -> (r: UserId) {
        self.user_id.clone()
    }

    fn equals(&self, value: &UserId) -> (r: bool) {
        self.user_id == *value
    }
}

/// Law: the stored password hash is a function of the raw password alone.
/// Two users whose stored hashes come from the same raw password carry the
/// same hash, whatever their generated identifiers.
pub proof fn lemma_same_raw_password_same_hash(u1: User, u2: User, raw: Seq<char>)
    requires
        u1.password@ == sha3_512_hex(raw),
        u2.password@ == sha3_512_hex(raw),
    ensures
        u1.password@ == u2.password@,
{
}

} // verus!
