//! Bookkeeping rules of a Copiosis community ledger: members, products that
//! members offer, and transfers of products from producers to consumers,
//! rewarded in NBR (net benefit reward).
//!
//! The library decides which rows and balances are written and how each
//! request is answered. The web front end reads and writes the SQLite
//! store, computes the floating-point amounts (benefit, NBR, GNBR), and
//! makes the two floating-point sign tests that the decisions take as
//! input: whether a gateway is negative, and whether a consumer's balance
//! would fall below zero.

pub mod ledger;
pub mod notice;
pub mod offers;
pub mod schema;
