//! One entry per request of the shop: what to ask of the store, and what
//! to answer once the store has answered.

pub mod categories;
pub mod orders;
pub mod products;
pub mod promo;
