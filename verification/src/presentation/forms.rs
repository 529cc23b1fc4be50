//! Input forms: the boundary shapes request data arrives in, with their
//! own validation rules, and their conversion into domain objects.
//!
//! A form field is optional because the wire may omit it. `validate_value`
//! checks the boundary rules and reports every violated field by name;
//! `convert` builds the domain value, rejecting with a
//! [`AppError::ValidationFailure`] whatever the domain rules refuse.

use crate::domain::entities::{Category, Product, User};
use crate::domain::values::{
    valid_category_id, valid_product_price, valid_short_text, CategoryId, CategoryName, Mail,
    Password, ProductId, ProductName, ProductPrice, UserName,
};
use crate::domain::entities::sha3_512_hex;
use crate::error::AppError;
use vstd::prelude::*;

verus! {

/// Validation failures of a form, one entry per violated field:
/// the field's name and a human-readable message.
#[derive(Debug)]
pub struct FieldErrors {
    pub entries: Vec<(String, String)>,
}

/// Whether some entry names this field.
pub open spec fn has_field(entries: Seq<(String, String)>, name: Seq<char>) -> bool {
    exists|i: int| 0 <= i < entries.len() && (#[trigger] entries[i]).0@ == name
}

/// Law: appending an entry reports its field and keeps the others.
pub proof fn lemma_has_field_push(
    entries: Seq<(String, String)>,
    entry: (String, String),
    name: Seq<char>,
)
    ensures
        has_field(entries.push(entry), name) <==> (has_field(entries, name) || entry.0@ == name),
{
    if entry.0@ == name {
        assert(entries.push(entry)[entries.len() as int].0@ == name);
    }
    if has_field(entries, name) {
        let i = choose|i: int| 0 <= i < entries.len() && (#[trigger] entries[i]).0@ == name;
        assert(entries.push(entry)[i].0@ == name);
    }
    if has_field(entries.push(entry), name) && entry.0@ != name {
        let i = choose|i: int|
            0 <= i < entries.push(entry).len() && (#[trigger] entries.push(entry)[i]).0@ == name;
        if i < entries.len() {
            assert(entries[i].0@ == name);
        }
    }
}

/// Conversion of a validated form into a domain object.
pub trait FormToDomain<T> {
    /// Whether the form's raw fields convert to a valid domain value.
    spec fn can_convert(&self) -> bool;

    /// What it means for `v` to be the conversion of this form.
    spec fn converted(&self, v: &T) -> bool;

    /// Build the domain value, or reject the form.
    fn convert(&self) -> (r: Result<T, AppError>)
        ensures
            match r {
                Ok(v) => self.can_convert() && self.converted(&v),
                Err(e) => !self.can_convert() && e is ValidationFailure,
            },
    ;
}

/// The product search form: a single required keyword.
#[derive(Debug)]
pub struct ProductSearchForm {
    pub keyword: Option<String>,
}

impl ProductSearchForm {
    /// The submitted keyword, as characters; empty when absent.
    pub open spec fn keyword_view(&self) -> Seq<char> {
        match self.keyword {
            Some(k) => k@,
            None => Seq::empty(),
        }
    }

    /// The boundary rule: the keyword is required and non-empty.
    pub open spec fn keyword_present(&self) -> bool {
        self.keyword matches Some(k) && k@.len() > 0
    }

    /// Whether the keyword converts to a valid product name.
    pub open spec fn keyword_convertible(&self) -> bool {
        self.keyword matches Some(k) && valid_short_text(k@)
    }

    /// Check the boundary rules, reporting each violated field by name.
    pub fn validate_value(&self) -> (r: Result<(), FieldErrors>)
        ensures
            r is Ok <==> self.keyword_present(),
            r matches Err(fe) ==> fe.entries@.len() == 1 && fe.entries@[0].0@ == "keyword"@,
    {
        let missing = match &self.keyword {
            Some(k) => k.as_str().unicode_len() == 0,
            None => true,
        };
        if missing {
            let mut entries: Vec<(String, String)> = Vec::new();
            entries.push(
                (String::from_str("keyword"), String::from_str("キーワードは入力必須です。")),
            );
            Err(FieldErrors { entries })
        } else {
            Ok(())
        }
    }
}

impl FormToDomain<ProductName> for ProductSearchForm {
    open spec fn can_convert(&self) -> bool {
        self.keyword_convertible()
    }

    open spec fn converted(&self, v: &ProductName) -> bool {
        v@ == self.keyword_view()
    }

    fn convert(&self) -> (r: Result<ProductName, AppError>) {
        match &self.keyword {
            Some(keyword) => ProductName::try_from(keyword.clone()),
            None => Err(AppError::ValidationFailure(String::from_str(
                "キーワードは入力必須です。",
            ))),
        }
    }
}

/// The product registration form: name, unit price and category.
#[derive(Debug)]
pub struct ProductRegisterForm {
    pub name: Option<String>,
    pub price: Option<i32>,
    pub category_id: Option<i32>,
}

impl ProductRegisterForm {
    /// The submitted name, as characters; empty when absent.
    pub open spec fn name_view(&self) -> Seq<char> {
        match self.name {
            Some(n) => n@,
            None => Seq::empty(),
        }
    }

    /// The boundary rule on the name: present, four to twenty characters.
    pub open spec fn name_length_ok(&self) -> bool {
        self.name matches Some(n) && 4 <= n@.len() <= 20
    }

    /// The boundary rule on the price: present, 50 to 100000.
    pub open spec fn price_range_ok(&self) -> bool {
        self.price matches Some(p) && 50 <= p <= 100000
    }

    /// The boundary rule on the category: present, one of the closed set.
    pub open spec fn category_range_ok(&self) -> bool {
        self.category_id matches Some(c) && valid_category_id(c)
    }

    /// The submitted price; meaningful when present.
    pub open spec fn price_view(&self) -> int {
        match self.price {
            Some(p) => p as int,
            None => 0,
        }
    }

    /// The submitted category id; meaningful when present.
    pub open spec fn category_view(&self) -> int {
        match self.category_id {
            Some(c) => c as int,
            None => 0,
        }
    }

    /// Whether every field converts to its domain value object.
    pub open spec fn fields_convertible(&self) -> bool {
        &&& self.category_id matches Some(c) && valid_category_id(c)
        &&& self.name matches Some(n) && valid_short_text(n@)
        &&& self.price matches Some(p) && valid_product_price(p)
    }

    /// Check the boundary rules, reporting each violated field by name.
    pub fn validate_value(&self) -> (r: Result<(), FieldErrors>)
        ensures
            r is Ok <==> self.name_length_ok() && self.price_range_ok()
                && self.category_range_ok(),
            r matches Err(fe) ==> {
                &&& (has_field(fe.entries@, "name"@) <==> !self.name_length_ok())
                &&& (has_field(fe.entries@, "price"@) <==> !self.price_range_ok())
                &&& (has_field(fe.entries@, "category_id"@) <==> !self.category_range_ok())
            },
    {
        let mut entries: Vec<(String, String)> = Vec::new();
        let name_ok = match &self.name {
            Some(n) => {
                let len = n.as_str().unicode_len();
                4 <= len && len <= 20
            },
            None => false,
        };
        if !name_ok {
            let entry = (
                String::from_str("name"),
                String::from_str("商品名は４文字以上20文字以内で入力して下さい。"),
            );
            proof {
                lemma_has_field_push(entries@, entry, "name"@);
                lemma_has_field_push(entries@, entry, "price"@);
                lemma_has_field_push(entries@, entry, "category_id"@);
            }
            entries.push(entry);
        }
        proof {
            reveal_strlit("name");
            reveal_strlit("price");
            reveal_strlit("category_id");
            assert("name"@ !~= "price"@);
            assert(has_field(entries@, "name"@) <==> !self.name_length_ok());
            assert(!has_field(entries@, "price"@));
            assert(!has_field(entries@, "category_id"@));
        }
        let price_ok = match self.price {
            Some(p) => 50 <= p && p <= 100000,
            None => false,
        };
        if !price_ok {
            let entry = (
                String::from_str("price"),
                String::from_str("単価は50～100000までで入力して下さい。"),
            );
            proof {
                lemma_has_field_push(entries@, entry, "name"@);
                lemma_has_field_push(entries@, entry, "price"@);
                lemma_has_field_push(entries@, entry, "category_id"@);
            }
            entries.push(entry);
        }
        proof {
            assert(has_field(entries@, "name"@) <==> !self.name_length_ok());
            assert(has_field(entries@, "price"@) <==> !self.price_range_ok());
            assert(!has_field(entries@, "category_id"@));
        }
        let category_ok = match self.category_id {
            Some(c) => 1 <= c && c <= 3,
            None => false,
        };
        if !category_ok {
            let entry = (
                String::from_str("category_id"),
                String::from_str("不正なカテゴリが選択されました。"),
            );
            proof {
                lemma_has_field_push(entries@, entry, "name"@);
                lemma_has_field_push(entries@, entry, "price"@);
                lemma_has_field_push(entries@, entry, "category_id"@);
            }
            entries.push(entry);
        }
        if entries.len() == 0 {
            Ok(())
        } else {
            Err(FieldErrors { entries })
        }
    }
}

impl FormToDomain<Product> for ProductRegisterForm {
    open spec fn can_convert(&self) -> bool {
        self.fields_convertible()
    }

    open spec fn converted(&self, v: &Product) -> bool {
        &&& v.id@ == 0
        &&& v.name@ == self.name_view()
        &&& (self.price matches Some(p) && v.price@ == p as int)
        &&& (v.category matches Some(c) && (self.category_id matches Some(cid) && c.id@
            == cid as int) && c.name@ == "dummy"@)
    }

    fn convert(&self) -> (r: Result<Product, AppError>) {
        let category_number = match self.category_id {
            Some(c) => c,
            None => {
                return Err(AppError::ValidationFailure(String::from_str(
                    "カテゴリは入力必須です。",
                )));
            },
        };
        let category_id = match CategoryId::try_from(category_number) {
            Ok(v) => v,
            Err(e) => {
                return Err(e);
            },
        };
        proof {
            reveal_strlit("dummy");
        }
        let category_name = match CategoryName::try_from(String::from_str("dummy")) {
            Ok(v) => v,
            Err(_) => unreached(),
        };
        let category = Category::new(category_id, category_name);
        let product_id = match ProductId::try_from(0) {
            Ok(v) => v,
            Err(_) => unreached(),
        };
        let product_name = match &self.name {
            Some(n) => match ProductName::try_from(n.clone()) {
                Ok(v) => v,
                Err(e) => {
                    return Err(e);
                },
            },
            None => {
                return Err(AppError::ValidationFailure(String::from_str(
                    "商品名がありません。",
                )));
            },
        };
        let product_price = match self.price {
            Some(p) => match ProductPrice::try_from(p) {
                Ok(v) => v,
                Err(e) => {
                    return Err(e);
                },
            },
            None => {
                return Err(AppError::ValidationFailure(String::from_str(
                    "単価は入力必須です。",
                )));
            },
        };
        Ok(Product::new(product_id, product_name, product_price, Some(category)))
    }
}

/// The login form: a user name and a raw password.
#[derive(Debug)]
pub struct LoginForm {
    pub name: Option<String>,
    pub password: Option<String>,
}

impl LoginForm {
    /// The submitted name, as characters; empty when absent.
    pub open spec fn name_view(&self) -> Seq<char> {
        match self.name {
            Some(n) => n@,
            None => Seq::empty(),
        }
    }

    /// The submitted raw password, as characters; empty when absent.
    pub open spec fn password_view(&self) -> Seq<char> {
        match self.password {
            Some(p) => p@,
            None => Seq::empty(),
        }
    }

    /// The boundary rule on the name: six to twenty characters when
    /// present; an absent field is not checked.
    pub open spec fn name_length_ok(&self) -> bool {
        match self.name {
            Some(n) => 6 <= n@.len() <= 20,
            None => true,
        }
    }

    /// The boundary rule on the password: six to twenty characters when
    /// present; an absent field is not checked.
    pub open spec fn password_length_ok(&self) -> bool {
        match self.password {
            Some(p) => 6 <= p@.len() <= 20,
            None => true,
        }
    }

    /// Whether both credentials convert to their domain value objects.
    pub open spec fn fields_convertible(&self) -> bool {
        &&& self.name matches Some(n) && valid_short_text(n@)
        &&& self.password matches Some(p) && p@.len() >= 1
    }

    /// Check the boundary rules, reporting each violated field by name.
    pub fn validate_value(&self) -> (r: Result<(), FieldErrors>)
        ensures
            r is Ok <==> self.name_length_ok() && self.password_length_ok(),
            r matches Err(fe) ==> {
                &&& (has_field(fe.entries@, "name"@) <==> !self.name_length_ok())
                &&& (has_field(fe.entries@, "password"@) <==> !self.password_length_ok())
            },
    {
        let mut entries: Vec<(String, String)> = Vec::new();
        let name_ok = match &self.name {
            Some(n) => {
                let len = n.as_str().unicode_len();
                6 <= len && len <= 20
            },
            None => true,
        };
        if !name_ok {
            let entry = (
                String::from_str("name"),
                String::from_str("ユーザー名は6文字以上20文字以内で入力して下さい。"),
            );
            proof {
                lemma_has_field_push(entries@, entry, "name"@);
                lemma_has_field_push(entries@, entry, "password"@);
            }
            entries.push(entry);
        }
        proof {
            reveal_strlit("name");
            reveal_strlit("password");
            assert("name"@ !~= "password"@);
            assert(has_field(entries@, "name"@) <==> !self.name_length_ok());
            assert(!has_field(entries@, "password"@));
        }
        let password_ok = match &self.password {
            Some(p) => {
                let len = p.as_str().unicode_len();
                6 <= len && len <= 20
            },
            None => true,
        };
        if !password_ok {
            let entry = (
                String::from_str("password"),
                String::from_str("パスワードは6文字以上20文字以内で入力して下さい。"),
            );
            proof {
                lemma_has_field_push(entries@, entry, "name"@);
                lemma_has_field_push(entries@, entry, "password"@);
            }
            entries.push(entry);
        }
        if entries.len() == 0 {
            Ok(())
        } else {
            Err(FieldErrors { entries })
        }
    }
}

impl FormToDomain<User> for LoginForm {
    open spec fn can_convert(&self) -> bool {
        self.fields_convertible()
    }

    open spec fn converted(&self, v: &User) -> bool {
        &&& v.user_name@ == self.name_view()
        &&& v.password@ == sha3_512_hex(self.password_view())
        &&& v.mail@ == "dummy"@
        &&& v.user_id@.len() == 36
    }

    fn convert(&self) -> (r: Result<User, AppError>) {
        let user_name = match &self.name {
            Some(n) => match UserName::try_from(n.clone()) {
                Ok(v) => v,
                Err(e) => {
                    return Err(e);
                },
            },
            None => {
                return Err(AppError::ValidationFailure(String::from_str(
                    "ユーザー名がありません。",
                )));
            },
        };
        let raw_password = match &self.password {
            Some(p) => match Password::try_from(p.clone()) {
                Ok(v) => v,
                Err(e) => {
                    return Err(e);
                },
            },
            None => {
                return Err(AppError::ValidationFailure(String::from_str(
                    "パスワードがありません。",
                )));
            },
        };
        proof {
            reveal_strlit("dummy");
        }
        let mail = match Mail::try_from(String::from_str("dummy")) {
            Ok(v) => v,
            Err(_) => unreached(),
        };
        match User::new(user_name, raw_password, mail) {
            Ok(user) => Ok(user),
            Err(_) => unreached(),
        }
    }
}

} // verus!
