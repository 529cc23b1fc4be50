//! Transfer objects: boundary-facing shapes derived from entities.
//!
//! A transfer object carries plain text fields only; numbers are rendered
//! in decimal and the price is rendered as currency text. The spec
//! predicate of each conversion pins every field to the entity it came
//! from, which is the round-trip guarantee of the boundary.

use crate::domain::entities::{Category, Characteristic, Product, User};
use crate::domain::values::ValueInto;
use crate::text::{decimal_digits, decimal_string};
use vstd::prelude::*;

verus! {

/// Conversion of entities into their transfer shapes.
pub trait EntityToDto<T>: Sized {
    /// Whether the entity is ready for exposure at the boundary.
    spec fn convertible(value: &T) -> bool;

    /// What it means for `self` to be the transfer shape of `value`.
    spec fn is_dto_of(&self, value: &T) -> bool;

    /// Convert one entity.
    fn convert(value: &T) -> (r: Self)
        requires
            Self::convertible(value),
        ensures
            r.is_dto_of(value),
    ;

    /// Convert a whole result set, keeping the order.
    fn converts(values: &Vec<T>) -> (r: Vec<Self>)
        requires
            forall|i: int| 0 <= i < values@.len() ==> Self::convertible(&values@[i]),
        ensures
            r@.len() == values@.len(),
            forall|i: int| 0 <= i < values@.len() ==> r@[i].is_dto_of(&values@[i]),
    ;
}

/// The text a yen amount in minor units renders to. Named, not spelled
/// out: the rendering is a pure function of the amount, and its exact
/// shape is established only by the money crate itself.
pub uninterp spec fn jpy_format(minor: int) -> Seq<char>;

/// Relies on `rusty_money::Money::from_minor` with the ISO yen currency
/// and its `Display` rendering: the text depends on the amount alone.
/// The yen has exponent zero, so `from_minor` cannot panic.
#[verifier::external_body]
fn format_jpy(amount: i32) -> (r: String)
    ensures
        r@ == jpy_format(amount as int),
{
    rusty_money::Money::from_minor(amount as i64, rusty_money::iso::JPY).to_string()
}

/// Transfer shape of a category.
#[derive(Debug)]
pub struct CategoryDto {
    pub id: String,
    pub name: String,
}

impl Clone for CategoryDto {
    fn clone(&self) -> (r: Self)
        ensures
            r == *self,
    {
        CategoryDto { id: self.id.clone(), name: self.name.clone() }
    }
}

/// Every field of the category transfer shape, pinned to its entity.
pub open spec fn dto_of_category(dto: &CategoryDto, value: &Category) -> bool {
    &&& dto.id@ == decimal_digits(value.id@ as nat)
    &&& dto.name@ == value.name@
}

impl EntityToDto<Category> for CategoryDto {
    open spec fn convertible(value: &Category) -> bool {
        true
    }

    open spec fn is_dto_of(&self, value: &Category) -> bool {
        dto_of_category(self, value)
    }

    fn convert(value: &Category) -> (r: Self) {
        value.id.always_valid();
        let id_number = value.get().value();
        Self { id: decimal_string(id_number), name: value.name.value() }
    }

    fn converts(values: &Vec<Category>) -> (r: Vec<Self>) {
        let mut results: Vec<Self> = Vec::new();
        let mut i: usize = 0;
        while i < values.len()
            invariant
                i <= values@.len(),
                results@.len() == i,
                forall|k: int| 0 <= k < i ==> results@[k].is_dto_of(&values@[k]),
            decreases values@.len() - i,
        {
            results.push(Self::convert(&values[i]));
            i += 1;
        }
        results
    }
}

/// Transfer shape of a product; the price is rendered as yen text and the
/// category must be populated before conversion.
#[derive(Debug)]
pub struct ProductDto {
    pub id: String,
    pub name: String,
    pub price: String,
    pub category: CategoryDto,
}

impl Clone for ProductDto {
    fn clone(&self) -> (r: Self)
        ensures
            r == *self,
    {
        ProductDto {
            id: self.id.clone(),
            name: self.name.clone(),
            price: self.price.clone(),
            category: self.category.clone(),
        }
    }
}

/// Every field of the product transfer shape, pinned to its entity.
pub open spec fn dto_of_product(dto: &ProductDto, value: &Product) -> bool {
    &&& dto.id@ == decimal_digits(value.id@ as nat)
    &&& dto.name@ == value.name@
    &&& dto.price@ == jpy_format(value.price@)
    &&& match value.category {
        Some(category) => dto_of_category(&dto.category, &category),
        None => false,
    }
}

impl EntityToDto<Product> for ProductDto {
    open spec fn convertible(value: &Product) -> bool {
        value.category is Some
    }

    open spec fn is_dto_of(&self, value: &Product) -> bool {
        dto_of_product(self, value)
    }

    fn convert(value: &Product) -> (r: Self) {
        let category_dto = match &value.category {
            Some(category) => CategoryDto::convert(category),
            None => unreached(),
        };
        value.id.always_valid();
        let id_number = value.get().value();
        Self {
            id: decimal_string(id_number),
            name: value.name.value(),
            price: format_jpy(value.price.value()),
            category: category_dto,
        }
    }

    fn converts(values: &Vec<Product>) -> (r: Vec<Self>) {
        let mut results: Vec<Self> = Vec::new();
        let mut i: usize = 0;
        while i < values.len()
            invariant
                i <= values@.len(),
                results@.len() == i,
                forall|k: int| 0 <= k < values@.len() ==> Self::convertible(&values@[k]),
                forall|k: int| 0 <= k < i ==> results@[k].is_dto_of(&values@[k]),
            decreases values@.len() - i,
        {
            results.push(Self::convert(&values[i]));
            i += 1;
        }
        results
    }
}

/// Transfer shape of a user.
#[derive(Debug)]
pub struct UserDto {
    pub user_id: String,
    pub user_name: String,
    pub password: String,
    pub mail: String,
}

impl Clone for UserDto {
    fn clone(&self) -> (r: Self)
        ensures
            r == *self,
    {
        UserDto {
            user_id: self.user_id.clone(),
            user_name: self.user_name.clone(),
            password: self.password.clone(),
            mail: self.mail.clone(),
        }
    }
}

/// Every field of the user transfer shape, pinned to its entity.
pub open spec fn dto_of_user(dto: &UserDto, value: &User) -> bool {
    &&& dto.user_id@ == value.user_id@
    &&& dto.user_name@ == value.user_name@
    &&& dto.password@ == value.password@
    &&& dto.mail@ == value.mail@
}

impl EntityToDto<User> for UserDto {
    open spec fn convertible(value: &User) -> bool {
        true
    }

    open spec fn is_dto_of(&self, value: &User) -> bool {
        dto_of_user(self, value)
    }

    fn convert(value: &User) -> (r: Self) {
        Self {
            user_id: value.get().value(),
            user_name: value.user_name.value(),
            password: value.password.value(),
            mail: value.mail.value(),
        }
    }

    fn converts(values: &Vec<User>) -> (r: Vec<Self>) {
        let mut results: Vec<Self> = Vec::new();
        let mut i: usize = 0;
        while i < values.len()
            invariant
                i <= values@.len(),
                results@.len() == i,
                forall|k: int| 0 <= k < i ==> results@[k].is_dto_of(&values@[k]),
            decreases values@.len() - i,
        {
            results.push(Self::convert(&values[i]));
            i += 1;
        }
        results
    }
}

} // verus!
