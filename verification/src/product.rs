//! The business entity and its projection out of an attribute mapping.
//!
//! Field resolution tolerates exactly two casings per field: the canonical
//! key (`Id`, `Name`, `Price`) is looked up first; only when it is absent is
//! the lowercase alternate (`id`, `name`, `price`) tried. A present value
//! under the chosen key must carry the field's exact tag; a wrong tag is a
//! type mismatch and never falls back to the alternate key. The price keeps
//! its decimal string, validated against the library's numeric grammar, so
//! that no precision is lost inside the core.

use vstd::prelude::*;

use crate::error::Error;
use crate::error::Field;
use crate::json::assoc_find;
use crate::model::AttrMap;
use crate::model::AttributeValue;
use crate::numeral::check_number_string;
use crate::numeral::is_number_string;

verus! {

/// The projected business entity.
#[derive(Debug, PartialEq, Eq)]
pub struct Product {
    pub id: String,
    pub name: String,
    /// The price's decimal rendering; a boundary parses it when needed.
    pub price: String,
}

/// The mathematical value of a product.
pub struct ProductV {
    pub id: Seq<char>,
    pub name: Seq<char>,
    pub price: Seq<char>,
}

impl View for Product {
    type V = ProductV;

    open spec fn view(&self) -> ProductV {
        ProductV { id: self.id@, name: self.name@, price: self.price@ }
    }
}

/// A well-formed product value: its price is a numeric string.
pub open spec fn product_wf(p: ProductV) -> bool {
    is_number_string(p.price)
}

/// Resolve a field: the canonical key first, the alternate key only when
/// the canonical one is absent.
pub open spec fn resolve_key(
    m: Seq<(String, AttributeValue)>,
    canonical: Seq<char>,
    alternate: Seq<char>,
) -> Option<AttributeValue> {
    match assoc_find(m, canonical) {
        Some(v) => Some(v),
        None => assoc_find(m, alternate),
    }
}

/// What projecting an attribute mapping yields: the entity whose fields are
/// resolved in the order identifier, name, price, or the first failure.
pub open spec fn spec_project(m: Seq<(String, AttributeValue)>) -> Result<ProductV, Error> {
    match resolve_key(m, "Id"@, "id"@) {
        None => Err(Error::MissingField(Field::Id)),
        Some(v) => match v {
            AttributeValue::S(id) => match resolve_key(m, "Name"@, "name"@) {
                None => Err(Error::MissingField(Field::Name)),
                Some(v2) => match v2 {
                    AttributeValue::S(name) => match resolve_key(m, "Price"@, "price"@) {
                        None => Err(Error::MissingField(Field::Price)),
                        Some(v3) => match v3 {
                            AttributeValue::N(p) => if is_number_string(p@) {
                                Ok(ProductV { id: id@, name: name@, price: p@ })
                            } else {
                                Err(Error::TypeMismatch(Field::Price))
                            },
                            _ => Err(Error::TypeMismatch(Field::Price)),
                        },
                    },
                    _ => Err(Error::TypeMismatch(Field::Name)),
                },
            },
            _ => Err(Error::TypeMismatch(Field::Id)),
        },
    }
}

/// Resolve a field of `m`: `canonical` first, then `alternate`.
fn resolve<'a>(m: &'a AttrMap, canonical: &str, alternate: &str) -> (r: Option<
    &'a AttributeValue,
>)
    ensures
        match r {
            Some(v) => resolve_key(m@, canonical@, alternate@) == Some(*v),
            None => resolve_key(m@, canonical@, alternate@) is None,
        },
{
    match m.get(canonical) {
        Some(v) => Some(v),
        None => m.get(alternate),
    }
}

/// The canonical-key encoding of `p`: identifier, name and price bound to
/// `Id`, `Name` and `Price`, in that order, as string, string and number.
pub open spec fn encodes_product(m: Seq<(String, AttributeValue)>, p: ProductV) -> bool {
    &&& m.len() == 3
    &&& m[0].0@ == "Id"@ && (m[0].1 matches AttributeValue::S(s) && s@ == p.id)
    &&& m[1].0@ == "Name"@ && (m[1].1 matches AttributeValue::S(s) && s@ == p.name)
    &&& m[2].0@ == "Price"@ && (m[2].1 matches AttributeValue::N(n) && n@ == p.price)
}

/// The store encoding of `p`: the same fields under the lowercase keys
/// `id`, `name` and `price`, in that order.
pub open spec fn encodes_product_store(m: Seq<(String, AttributeValue)>, p: ProductV) -> bool {
    &&& m.len() == 3
    &&& m[0].0@ == "id"@ && (m[0].1 matches AttributeValue::S(s) && s@ == p.id)
    &&& m[1].0@ == "name"@ && (m[1].1 matches AttributeValue::S(s) && s@ == p.name)
    &&& m[2].0@ == "price"@ && (m[2].1 matches AttributeValue::N(n) && n@ == p.price)
}

/// What reading a store item yields: the store writes only lowercase keys,
/// so no alternate casing is tried.
pub open spec fn spec_from_dynamodb(m: Seq<(String, AttributeValue)>) -> Result<
    ProductV,
    Error,
> {
    match assoc_find(m, "id"@) {
        None => Err(Error::MissingField(Field::Id)),
        Some(v) => match v {
            AttributeValue::S(id) => match assoc_find(m, "name"@) {
                None => Err(Error::MissingField(Field::Name)),
                Some(v2) => match v2 {
                    AttributeValue::S(name) => match assoc_find(m, "price"@) {
                        None => Err(Error::MissingField(Field::Price)),
                        Some(v3) => match v3 {
                            AttributeValue::N(p) => if is_number_string(p@) {
                                Ok(ProductV { id: id@, name: name@, price: p@ })
                            } else {
                                Err(Error::TypeMismatch(Field::Price))
                            },
                            _ => Err(Error::TypeMismatch(Field::Price)),
                        },
                    },
                    _ => Err(Error::TypeMismatch(Field::Name)),
                },
            },
            _ => Err(Error::TypeMismatch(Field::Id)),
        },
    }
}

impl Product {
    /// Project a business entity out of an attribute mapping. Every field
    /// must be independently resolvable under its canonical or alternate
    /// key; a wrong tag is a type mismatch, never a fallback.
    pub fn try_from(value: &AttrMap) -> (r: Result<Product, Error>)
        ensures
            match r {
                Ok(p) => spec_project(value@) == Ok::<ProductV, Error>(p@),
                Err(e) => spec_project(value@) == Err::<ProductV, Error>(e),
            },
    {
        let id = match resolve(value, "Id", "id") {
            None => {
                return Err(Error::MissingField(Field::Id));
            },
            Some(v) => match v {
                AttributeValue::S(s) => s.clone(),
                _ => {
                    return Err(Error::TypeMismatch(Field::Id));
                },
            },
        };
        let name = match resolve(value, "Name", "name") {
            None => {
                return Err(Error::MissingField(Field::Name));
            },
            Some(v) => match v {
                AttributeValue::S(s) => s.clone(),
                _ => {
                    return Err(Error::TypeMismatch(Field::Name));
                },
            },
        };
        let price = match resolve(value, "Price", "price") {
            None => {
                return Err(Error::MissingField(Field::Price));
            },
            Some(v) => match v {
                AttributeValue::N(n) => {
                    if check_number_string(n.as_str()) {
                        n.clone()
                    } else {
                        return Err(Error::TypeMismatch(Field::Price));
                    }
                },
                _ => {
                    return Err(Error::TypeMismatch(Field::Price));
                },
            },
        };
        Ok(Product { id, name, price })
    }

    /// Read a business entity out of a store item, which binds its fields
    /// under lowercase keys only. Failures surface as the shared
    /// field-keyed errors, whose rendered texts belong to the projection
    /// pipeline.
    pub fn from_dynamodb(value: &AttrMap) -> (r: Result<Product, Error>)
        ensures
            match r {
                Ok(p) => spec_from_dynamodb(value@) == Ok::<ProductV, Error>(p@),
                Err(e) => spec_from_dynamodb(value@) == Err::<ProductV, Error>(e),
            },
    {
        let id = match value.get("id") {
            None => {
                return Err(Error::MissingField(Field::Id));
            },
            Some(v) => match v {
                AttributeValue::S(s) => s.clone(),
                _ => {
                    return Err(Error::TypeMismatch(Field::Id));
                },
            },
        };
        let name = match value.get("name") {
            None => {
                return Err(Error::MissingField(Field::Name));
            },
            Some(v) => match v {
                AttributeValue::S(s) => s.clone(),
                _ => {
                    return Err(Error::TypeMismatch(Field::Name));
                },
            },
        };
        let price = match value.get("price") {
            None => {
                return Err(Error::MissingField(Field::Price));
            },
            Some(v) => match v {
                AttributeValue::N(n) => {
                    if check_number_string(n.as_str()) {
                        n.clone()
                    } else {
                        return Err(Error::TypeMismatch(Field::Price));
                    }
                },
                _ => {
                    return Err(Error::TypeMismatch(Field::Price));
                },
            },
        };
        Ok(Product { id, name, price })
    }

    /// Encode this entity into an attribute mapping under canonical keys.
    pub fn to_attributes(&self) -> (r: AttrMap)
        ensures
            encodes_product(r@, self@),
    {
        let mut m = AttrMap::new();
        m.insert("Id".to_owned(), AttributeValue::S(self.id.clone()));
        m.insert("Name".to_owned(), AttributeValue::S(self.name.clone()));
        m.insert("Price".to_owned(), AttributeValue::N(self.price.clone()));
        m
    }

    /// Encode this entity into a store item under lowercase keys.
    pub fn to_dynamodb(&self) -> (r: AttrMap)
        ensures
            encodes_product_store(r@, self@),
    {
        let mut m = AttrMap::new();
        m.insert("id".to_owned(), AttributeValue::S(self.id.clone()));
        m.insert("name".to_owned(), AttributeValue::S(self.name.clone()));
        m.insert("price".to_owned(), AttributeValue::N(self.price.clone()));
        m
    }
}

} // verus!
