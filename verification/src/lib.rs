//! Per-SKU product discount evaluation.
//!
//! Given a snapshot of a shopping cart and a merchant-supplied table of
//! per-SKU discount rules, the library computes the discount operations to
//! apply: each cart line whose product-variant SKU is a key of the rule
//! table yields one discount candidate, and all candidates are wrapped in a
//! single "add product discounts" operation (or none, when nothing matched).

pub mod cart;
pub mod cart_lines_discounts_generate_run;
pub mod config;
pub mod decimal;
pub mod output;
