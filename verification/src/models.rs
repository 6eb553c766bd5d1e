//! The rows of the store.

use vstd::prelude::*;
use crate::amount::Decimal;

verus! {

/// A product of the catalog.
#[derive(Debug, PartialEq, Eq)]
pub struct Product {
    pub id: i32,
    pub name: String,
    pub name_kk: Option<String>,
    pub price: Decimal,
    pub old_price: Option<Decimal>,
    /// The image list, as JSON text.
    pub image: Option<String>,
    pub category: Option<String>,
    pub category_id: Option<i32>,
    pub unit: Option<String>,
    pub description: Option<String>,
    pub description_kk: Option<String>,
    /// In thousandths of a unit; never negative after a placed order.
    pub stock: Option<Decimal>,
}

/// A category; its parent is another category or none.
#[derive(Debug, PartialEq, Eq)]
pub struct Category {
    pub id: i32,
    pub parent_id: Option<i32>,
    pub name: String,
    pub name_kk: String,
    pub image: Option<String>,
    pub slug: Option<String>,
}

/// A recorded order.
#[derive(Debug, PartialEq, Eq)]
pub struct Order {
    pub id: i32,
    pub customer_name: String,
    pub customer_phone: String,
    pub address: String,
    pub comment: Option<String>,
    /// The cart as it was when the order was placed, as JSON text.
    pub items_json: String,
    pub total_price: Decimal,
    pub status: String,
    pub created_at: String,
}

/// A promo code. Codes are compared trimmed and in upper case.
#[derive(Debug, PartialEq, Eq)]
pub struct PromoCode {
    pub id: Option<i32>,
    pub code: String,
    pub discount: i32,
    pub is_active: Option<i32>,
}

} // verus!
