//! The decision logic of a small shop backend: order placement with stock
//! reservation, catalog listing queries, and deletion with asset cleanup.
//!
//! Nothing here talks to a database or a blob store. Every function maps
//! plain values to plain values; the embedding program performs the I/O and
//! feeds the results back.
//!
//! * [`checkout`] turns a checkout request into typed operations, and the
//!   store's report into a per-line verdict; [`flow`] is the protocol that
//!   places an order or takes it back as a whole.
//! * [`ledger`] is a store held in memory that gives the operations their
//!   meaning; [`placement`] runs whole placements on it and proves that
//!   they are all or nothing and never oversell.
//! * [`catalog`] builds the listing query, with every value bound.
//! * [`deletion`] deletes a row and reclaims its asset, in that order.
//! * [`handlers`] holds one entry per request.

pub mod amount;
pub mod text;
pub mod sql;
pub mod reply;
pub mod models;
pub mod assets;
pub mod images;
pub mod checkout;
pub mod flow;
pub mod ledger;
pub mod placement;
pub mod catalog;
pub mod deletion;
pub mod handlers;
