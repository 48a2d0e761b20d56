//! The cart snapshot handed to an evaluation: an ordered list of lines,
//! each holding a quantity of some merchandise.

use vstd::prelude::*;

verus! {

/// What a cart line refers to. Only product variants carry a SKU and can
/// match a discount rule; any other kind of merchandise (a gift card, a
/// bundle) never matches.
#[derive(Clone, PartialEq, Debug)]
pub enum Merchandise {
    ProductVariant { sku: Option<String> },
    Other,
}

/// One entry of a cart: an opaque line identifier, a quantity, and the
/// merchandise the line refers to.
#[derive(Clone, PartialEq, Debug)]
pub struct CartLine {
    pub id: String,
    pub quantity: u32,
    pub merchandise: Merchandise,
}

/// The cart snapshot: its lines, in the order the host delivered them.
#[derive(Clone, PartialEq, Debug)]
pub struct Cart {
    pub lines: Vec<CartLine>,
}

} // verus!
