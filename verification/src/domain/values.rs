//! Self-validating value objects.
//!
//! Each type wraps one primitive value and checks its rule exactly once, in
//! `try_from`. A value that exists is therefore always valid: there is no
//! setter, and replacement is the only way to change it. The rule of each
//! type is stated as a public spec function beside it, and `try_from`
//! returns `Ok` exactly on the inputs that satisfy the rule.

use crate::error::AppError;
use vstd::prelude::*;

verus! {

/// Returns the primitive value a value object wraps.
pub trait ValueInto<T> {
    /// What it means for `r` to be the wrapped value of `self`.
    spec fn value_matches(&self, r: T) -> bool;

    /// Hand out the wrapped value (by clone; the object itself is immutable).
    fn value(&self) -> (r: T)
        ensures
            self.value_matches(r),
    ;
}

/// The rule of [`CategoryId`]: the closed category set.
pub open spec fn valid_category_id(value: i32) -> bool {
    1 <= value <= 3
}

/// The rule of [`CategoryName`], [`ProductName`] and [`UserName`]:
/// non-empty, at most twenty characters.
pub open spec fn valid_short_text(s: Seq<char>) -> bool {
    1 <= s.len() <= 20
}

/// The rule of [`ProductId`]: never negative.
pub open spec fn valid_product_id(value: i32) -> bool {
    value >= 0
}

/// The rule of [`ProductPrice`]: minor currency units within the closed
/// interval from 50 to 10000.
pub open spec fn valid_product_price(value: i32) -> bool {
    50 <= value <= 10000
}

/// The rule of [`UserId`] and [`Password`]: any non-empty text.
pub open spec fn valid_nonempty_text(s: Seq<char>) -> bool {
    s.len() >= 1
}

/// The rule of [`Mail`]: non-empty, at most thirty-six characters.
pub open spec fn valid_mail_text(s: Seq<char>) -> bool {
    1 <= s.len() <= 36
}

/// Identifier of a product category; only the ids 1, 2 and 3 exist.
#[derive(Debug)]
pub struct CategoryId {
    value: i32,
}

impl CategoryId {
    #[verifier::type_invariant]
    spec fn inv(self) -> bool {
        valid_category_id(self.value)
    }

    /// Validating constructor: accepts exactly the ids of the closed set.
    pub fn try_from(value: i32) -> (r: Result<Self, AppError>)
        ensures
            match r {
                Ok(id) => valid_category_id(value) && id@ == value as int,
                Err(e) => !valid_category_id(value) && e is ValidationFailure,
            },
    {
        if 1 <= value && value <= 3 {
            Ok(Self { value })
        } else {
            Err(AppError::ValidationFailure(String::from_str(
                "不正な商品カテゴリ番号です。",
            )))
        }
    }

    /// Law: a value object, once it exists, satisfies its rule. Callers
    /// may learn the rule of any value they hold, without touching it.
    pub fn always_valid(&self)
        ensures
            1 <= self@ <= 3,
    {
        proof {
            use_type_invariant(self);
        }
    }
}

impl View for CategoryId {
    type V = int;

    closed spec fn view(&self) -> int {
        self.value as int
    }
}

impl ValueInto<i32> for CategoryId {
    open spec fn value_matches(&self, r: i32) -> bool {
        r as int == self@
    }

    fn value(&self) -> (r: i32) {
        self.value
    }
}

impl Clone for CategoryId {
    fn clone(&self) -> (r: Self)
        ensures
            r == *self,
    {
        proof {
            use_type_invariant(self);
        }
        Self { value: self.value }
    }
}

impl PartialEq for CategoryId {
    fn eq(&self, other: &Self) -> (r: bool) {
        self.value == other.value
    }
}

impl vstd::std_specs::cmp::PartialEqSpecImpl for CategoryId {
    open spec fn obeys_eq_spec() -> bool {
        true
    }

    open spec fn eq_spec(&self, other: &Self) -> bool {
        self@ == other@
    }
}

/// Name of a product category.
#[derive(Debug)]
pub struct CategoryName {
    value: String,
}

impl CategoryName {
    #[verifier::type_invariant]
    spec fn inv(self) -> bool {
        valid_short_text(self.value@)
    }

    /// Validating constructor: non-empty, at most twenty characters.
    pub fn try_from(value: String) -> (r: Result<Self, AppError>)
        ensures
            match r {
                Ok(name) => valid_short_text(value@) && name@ == value@,
                Err(e) => !valid_short_text(value@) && e is ValidationFailure,
            },
    {
        let len = value.as_str().unicode_len();
        if len == 0 {
            Err(AppError::ValidationFailure(String::from_str("カテゴリ名がありません。")))
        } else if len > 20 {
            Err(AppError::ValidationFailure(String::from_str(
                "カテゴリ名の長さは20文字以内です。",
            )))
        } else {
            Ok(Self { value })
        }
    }

    /// Law: a value object, once it exists, satisfies its rule. Callers
    /// may learn the rule of any value they hold, without touching it.
    pub fn always_valid(&self)
        ensures
            valid_short_text(self@),
    {
        proof {
            use_type_invariant(self);
        }
    }
}

impl View for CategoryName {
    type V = Seq<char>;

    closed spec fn view(&self) -> Seq<char> {
        self.value@
    }
}

impl ValueInto<String> for CategoryName {
    open spec fn value_matches(&self, r: String) -> bool {
        r@ == self@
    }

    fn value(&self) -> (r: String) {
        self.value.clone()
    }
}

impl Clone for CategoryName {
    fn clone(&self) -> (r: Self)
        ensures
            r == *self,
    {
        proof {
            use_type_invariant(self);
        }
        Self { value: self.value.clone() }
    }
}

impl PartialEq for CategoryName {
    fn eq(&self, other: &Self) -> (r: bool) {
        self.value == other.value
    }
}

impl vstd::std_specs::cmp::PartialEqSpecImpl for CategoryName {
    open spec fn obeys_eq_spec() -> bool {
        true
    }

    open spec fn eq_spec(&self, other: &Self) -> bool {
        self@ == other@
    }
}

/// Identifier of a product; a store-assigned, never negative number.
#[derive(Debug)]
pub struct ProductId {
    value: i32,
}

impl ProductId {
    #[verifier::type_invariant]
    spec fn inv(self) -> bool {
        valid_product_id(self.value)
    }

    /// Validating constructor: rejects negative numbers.
    pub fn try_from(value: i32) -> (r: Result<Self, AppError>)
        ensures
            match r {
                Ok(id) => valid_product_id(value) && id@ == value as int,
                Err(e) => !valid_product_id(value) && e is ValidationFailure,
            },
    {
        if value < 0 {
            Err(AppError::ValidationFailure(String::from_str("不正な商品番号です。")))
        } else {
            Ok(Self { value })
        }
    }

    /// Law: a value object, once it exists, satisfies its rule. Callers
    /// may learn the rule of any value they hold, without touching it.
    pub fn always_valid(&self)
        ensures
            self@ >= 0,
    {
        proof {
            use_type_invariant(self);
        }
    }
}

impl View for ProductId {
    type V = int;

    closed spec fn view(&self) -> int {
        self.value as int
    }
}

impl ValueInto<i32> for ProductId {
    open spec fn value_matches(&self, r: i32) -> bool {
        r as int == self@
    }

    fn value(&self) -> (r: i32) {
        self.value
    }
}

impl Clone for ProductId {
    fn clone(&self) -> (r: Self)
        ensures
            r == *self,
    {
        proof {
            use_type_invariant(self);
        }
        Self { value: self.value }
    }
}

impl PartialEq for ProductId {
    fn eq(&self, other: &Self) -> (r: bool) {
        self.value == other.value
    }
}

impl vstd::std_specs::cmp::PartialEqSpecImpl for ProductId {
    open spec fn obeys_eq_spec() -> bool {
        true
    }

    open spec fn eq_spec(&self, other: &Self) -> bool {
        self@ == other@
    }
}

/// Name of a product.
#[derive(Debug)]
pub struct ProductName {
    value: String,
}

impl ProductName {
    #[verifier::type_invariant]
    spec fn inv(self) -> bool {
        valid_short_text(self.value@)
    }

    /// Validating constructor: non-empty, at most twenty characters.
    pub fn try_from(value: String) -> (r: Result<Self, AppError>)
        ensures
            match r {
                Ok(name) => valid_short_text(value@) && name@ == value@,
                Err(e) => !valid_short_text(value@) && e is ValidationFailure,
            },
    {
        let len = value.as_str().unicode_len();
        if len == 0 {
            Err(AppError::ValidationFailure(String::from_str("商品名がありません。")))
        } else if len > 20 {
            Err(AppError::ValidationFailure(String::from_str(
                "商品名の長さは20文字以内です。",
            )))
        } else {
            Ok(Self { value })
        }
    }

    /// Law: a value object, once it exists, satisfies its rule. Callers
    /// may learn the rule of any value they hold, without touching it.
    pub fn always_valid(&self)
        ensures
            valid_short_text(self@),
    {
        proof {
            use_type_invariant(self);
        }
    }
}

impl View for ProductName {
    type V = Seq<char>;

    closed spec fn view(&self) -> Seq<char> {
        self.value@
    }
}

impl ValueInto<String> for ProductName {
    open spec fn value_matches(&self, r: String) -> bool {
        r@ == self@
    }

    fn value(&self) -> (r: String) {
        self.value.clone()
    }
}

impl Clone for ProductName {
    fn clone(&self) -> (r: Self)
        ensures
            r == *self,
    {
        proof {
            use_type_invariant(self);
        }
        Self { value: self.value.clone() }
    }
}

impl PartialEq for ProductName {
    fn eq(&self, other: &Self) -> (r: bool) {
        self.value == other.value
    }
}

impl vstd::std_specs::cmp::PartialEqSpecImpl for ProductName {
    open spec fn obeys_eq_spec() -> bool {
        true
    }

    open spec fn eq_spec(&self, other: &Self) -> bool {
        self@ == other@
    }
}

/// Unit price of a product, in minor currency units.
#[derive(Debug)]
pub struct ProductPrice {
    value: i32,
}

impl ProductPrice {
    #[verifier::type_invariant]
    spec fn inv(self) -> bool {
        valid_product_price(self.value)
    }

    /// Validating constructor: accepts exactly the closed interval
    /// from 50 to 10000.
    pub fn try_from(value: i32) -> (r: Result<Self, AppError>)
        ensures
            match r {
                Ok(price) => valid_product_price(value) && price@ == value as int,
                Err(e) => !valid_product_price(value) && e is ValidationFailure,
            },
    {
        if 50 <= value && value <= 10000 {
            Ok(Self { value })
        } else {
            Err(AppError::ValidationFailure(String::from_str("不正な単価です。")))
        }
    }

    /// Law: a value object, once it exists, satisfies its rule. Callers
    /// may learn the rule of any value they hold, without touching it.
    pub fn always_valid(&self)
        ensures
            50 <= self@ <= 10000,
    {
        proof {
            use_type_invariant(self);
        }
    }
}

impl View for ProductPrice {
    type V = int;

    closed spec fn view(&self) -> int {
        self.value as int
    }
}

impl ValueInto<i32> for ProductPrice {
    open spec fn value_matches(&self, r: i32) -> bool {
        r as int == self@
    }

    fn value(&self) -> (r: i32) {
        self.value
    }
}

impl Clone for ProductPrice {
    fn clone(&self) -> (r: Self)
        ensures
            r == *self,
    {
        proof {
            use_type_invariant(self);
        }
        Self { value: self.value }
    }
}

impl PartialEq for ProductPrice {
    fn eq(&self, other: &Self) -> (r: bool) {
        self.value == other.value
    }
}

impl vstd::std_specs::cmp::PartialEqSpecImpl for ProductPrice {
    open spec fn obeys_eq_spec() -> bool {
        true
    }

    open spec fn eq_spec(&self, other: &Self) -> bool {
        self@ == other@
    }
}

/// Opaque identifier of a user, e.g. a generated UUID in text form.
#[derive(Debug)]
pub struct UserId {
    value: String,
}

impl UserId {
    #[verifier::type_invariant]
    spec fn inv(self) -> bool {
        valid_nonempty_text(self.value@)
    }

    /// Validating constructor: any non-empty text.
    pub fn try_from(value: String) -> (r: Result<Self, AppError>)
        ensures
            match r {
                Ok(id) => valid_nonempty_text(value@) && id@ == value@,
                Err(e) => !valid_nonempty_text(value@) && e is ValidationFailure,
            },
    {
        if value.as_str().unicode_len() == 0 {
            Err(AppError::ValidationFailure(String::from_str("ユーザーIDがありません。")))
        } else {
            Ok(Self { value })
        }
    }

    /// Law: a value object, once it exists, satisfies its rule. Callers
    /// may learn the rule of any value they hold, without touching it.
    pub fn always_valid(&self)
        ensures
            valid_nonempty_text(self@),
    {
        proof {
            use_type_invariant(self);
        }
    }
}

impl View for UserId {
    type V = Seq<char>;

    closed spec fn view(&self) -> Seq<char> {
        self.value@
    }
}

impl ValueInto<String> for UserId {
    open spec fn value_matches(&self, r: String) -> bool {
        r@ == self@
    }

    fn value(&self) -> (r: String) {
        self.value.clone()
    }
}

impl Clone for UserId {
    fn clone(&self) -> (r: Self)
        ensures
            r == *self,
    {
        proof {
            use_type_invariant(self);
        }
        Self { value: self.value.clone() }
    }
}

impl PartialEq for UserId {
    fn eq(&self, other: &Self) -> (r: bool) {
        self.value == other.value
    }
}

impl vstd::std_specs::cmp::PartialEqSpecImpl for UserId {
    open spec fn obeys_eq_spec() -> bool {
        true
    }

    open spec fn eq_spec(&self, other: &Self) -> bool {
        self@ == other@
    }
}

/// Name of a user.
#[derive(Debug)]
pub struct UserName {
    value: String,
}

impl UserName {
    #[verifier::type_invariant]
    spec fn inv(self) -> bool {
        valid_short_text(self.value@)
    }

    /// Validating constructor: non-empty, at most twenty characters.
    pub fn try_from(value: String) -> (r: Result<Self, AppError>)
        ensures
            match r {
                Ok(name) => valid_short_text(value@) && name@ == value@,
                Err(e) => !valid_short_text(value@) && e is ValidationFailure,
            },
    {
        let len = value.as_str().unicode_len();
        if len == 0 {
            Err(AppError::ValidationFailure(String::from_str("ユーザー名がありません。")))
        } else if len > 20 {
            Err(AppError::ValidationFailure(String::from_str(
                "ユーザー名の長さは20文字以内です。",
            )))
        } else {
            Ok(Self { value })
        }
    }

    /// Law: a value object, once it exists, satisfies its rule. Callers
    /// may learn the rule of any value they hold, without touching it.
    pub fn always_valid(&self)
        ensures
            valid_short_text(self@),
    {
        proof {
            use_type_invariant(self);
        }
    }
}

impl View for UserName {
    type V = Seq<char>;

    closed spec fn view(&self) -> Seq<char> {
        self.value@
    }
}

impl ValueInto<String> for UserName {
    open spec fn value_matches(&self, r: String) -> bool {
        r@ == self@
    }

    fn value(&self) -> (r: String) {
        self.value.clone()
    }
}

impl Clone for UserName {
    fn clone(&self) -> (r: Self)
        ensures
            r == *self,
    {
        proof {
            use_type_invariant(self);
        }
        Self { value: self.value.clone() }
    }
}

impl PartialEq for UserName {
    fn eq(&self, other: &Self) -> (r: bool) {
        self.value == other.value
    }
}

impl vstd::std_specs::cmp::PartialEqSpecImpl for UserName {
    open spec fn obeys_eq_spec() -> bool {
        true
    }

    open spec fn eq_spec(&self, other: &Self) -> bool {
        self@ == other@
    }
}

/// A password: the raw text on a freshly submitted form, or the one-way
/// hash of it once a user entity has been constructed or rehydrated.
#[derive(Debug)]
pub struct Password {
    value: String,
}

impl Password {
    #[verifier::type_invariant]
    spec fn inv(self) -> bool {
        valid_nonempty_text(self.value@)
    }

    /// Validating constructor: any non-empty text.
    pub fn try_from(value: String) -> (r: Result<Self, AppError>)
        ensures
            match r {
                Ok(password) => valid_nonempty_text(value@) && password@ == value@,
                Err(e) => !valid_nonempty_text(value@) && e is ValidationFailure,
            },
    {
        if value.as_str().unicode_len() == 0 {
            Err(AppError::ValidationFailure(String::from_str("パスワードがありません。")))
        } else {
            Ok(Self { value })
        }
    }

    /// Law: a value object, once it exists, satisfies its rule. Callers
    /// may learn the rule of any value they hold, without touching it.
    pub fn always_valid(&self)
        ensures
            valid_nonempty_text(self@),
    {
        proof {
            use_type_invariant(self);
        }
    }
}

impl View for Password {
    type V = Seq<char>;

    closed spec fn view(&self) -> Seq<char> {
        self.value@
    }
}

impl ValueInto<String> for Password {
    open spec fn value_matches(&self, r: String) -> bool {
        r@ == self@
    }

    fn value(&self) -> (r: String) {
        self.value.clone()
    }
}

impl Clone for Password {
    fn clone(&self) -> (r: Self)
        ensures
            r == *self,
    {
        proof {
            use_type_invariant(self);
        }
        Self { value: self.value.clone() }
    }
}

impl PartialEq for Password {
    fn eq(&self, other: &Self) -> (r: bool) {
        self.value == other.value
    }
}

impl vstd::std_specs::cmp::PartialEqSpecImpl for Password {
    open spec fn obeys_eq_spec() -> bool {
        true
    }

    open spec fn eq_spec(&self, other: &Self) -> bool {
        self@ == other@
    }
}

/// Mail address of a user.
#[derive(Debug)]
pub struct Mail {
    value: String,
}

impl Mail {
    #[verifier::type_invariant]
    spec fn inv(self) -> bool {
        valid_mail_text(self.value@)
    }

    /// Validating constructor: non-empty, at most thirty-six characters.
    pub fn try_from(value: String) -> (r: Result<Self, AppError>)
        ensures
            match r {
                Ok(mail) => valid_mail_text(value@) && mail@ == value@,
                Err(e) => !valid_mail_text(value@) && e is ValidationFailure,
            },
    {
        let len = value.as_str().unicode_len();
        if len == 0 {
            Err(AppError::ValidationFailure(String::from_str(
                "メールアドレスがありません。",
            )))
        } else if len > 36 {
            Err(AppError::ValidationFailure(String::from_str(
                "メールアドレスの長さは36文字以内です。",
            )))
        } else {
            Ok(Self { value })
        }
    }

    /// Law: a value object, once it exists, satisfies its rule. Callers
    /// may learn the rule of any value they hold, without touching it.
    pub fn always_valid(&self)
        ensures
            valid_mail_text(self@),
    {
        proof {
            use_type_invariant(self);
        }
    }
}

impl View for Mail {
    type V = Seq<char>;

    closed spec fn view(&self) -> Seq<char> {
        self.value@
    }
}

impl ValueInto<String> for Mail {
    open spec fn value_matches(&self, r: String) -> bool {
        r@ == self@
    }

    fn value(&self) -> (r: String) {
        self.value.clone()
    }
}

impl Clone for Mail {
    fn clone(&self) -> (r: Self)
        ensures
            r == *self,
    {
        proof {
            use_type_invariant(self);
        }
        Self { value: self.value.clone() }
    }
}

impl PartialEq for Mail {
    fn eq(&self, other: &Self) -> (r: bool) {
        self.value == other.value
    }
}

impl vstd::std_specs::cmp::PartialEqSpecImpl for Mail {
    open spec fn obeys_eq_spec() -> bool {
        true
    }

    open spec fn eq_spec(&self, other: &Self) -> bool {
        self@ == other@
    }
}

} // verus!
