//! The value an evaluation produces: discount candidates, the single
//! "add product discounts" operation that wraps them, and the result
//! carrying zero or one such operation.
//!
//! Each executable type has a view struct over `Seq<char>` in place of
//! `String`, so that contracts can speak of results mathematically.

use vstd::prelude::*;

use crate::decimal::Decimal;

verus! {

/// The target of a candidate: one cart line, by its identifier. A `None`
/// quantity means the discount applies to the line's full quantity.
#[derive(Clone, PartialEq, Debug)]
pub struct CartLineTarget {
    pub id: String,
    pub quantity: Option<u32>,
}

/// A candidate's target. Cart lines are the only target kind here.
#[derive(Clone, PartialEq, Debug)]
pub enum ProductDiscountCandidateTarget {
    CartLine(CartLineTarget),
}

/// A percentage discount value.
#[derive(Clone, Copy, PartialEq, Eq, Structural, Debug)]
pub struct Percentage {
    pub value: Decimal,
}

/// A fixed-amount discount value. `applies_to_each_item` is forwarded
/// unchanged to the consumer, which decides whether the amount comes off
/// once per line or once per unit.
#[derive(Clone, Copy, PartialEq, Eq, Debug)]
pub struct ProductDiscountCandidateFixedAmount {
    pub amount: Decimal,
    pub applies_to_each_item: Option<bool>,
}

/// The computed value of a candidate.
#[derive(Clone, Copy, PartialEq, Eq, Debug)]
pub enum ProductDiscountCandidateValue {
    Percentage(Percentage),
    FixedAmount(ProductDiscountCandidateFixedAmount),
}

/// One proposed discount: its targets (always a single cart line), a
/// display message, and the computed value. No promotional code is ever
/// attached by this evaluation.
#[derive(Clone, PartialEq, Debug)]
pub struct ProductDiscountCandidate {
    pub targets: Vec<ProductDiscountCandidateTarget>,
    pub message: Option<String>,
    pub value: ProductDiscountCandidateValue,
    pub associated_discount_code: Option<String>,
}

/// How the consumer should choose among candidates. This evaluation always
/// asks for all of them to be applied.
#[derive(Clone, Copy, PartialEq, Eq, Structural, Debug)]
pub enum ProductDiscountSelectionStrategy {
    All,
}

/// The one operation kind produced: add the given product discounts.
#[derive(Clone, PartialEq, Debug)]
pub struct ProductDiscountsAddOperation {
    pub selection_strategy: ProductDiscountSelectionStrategy,
    pub candidates: Vec<ProductDiscountCandidate>,
}

/// An operation of the result.
#[derive(Clone, PartialEq, Debug)]
pub enum CartOperation {
    ProductDiscountsAdd(ProductDiscountsAddOperation),
}

/// The whole result of an evaluation: its operations, of which there are
/// zero (nothing matched) or one.
#[derive(Clone, PartialEq, Debug)]
pub struct CartLinesDiscountsGenerateRunResult {
    pub operations: Vec<CartOperation>,
}

/// View of `CartLineTarget`.
#[verifier::ext_equal]
pub struct CartLineTargetView {
    pub id: Seq<char>,
    pub quantity: Option<u32>,
}

/// View of `ProductDiscountCandidateTarget`.
#[verifier::ext_equal]
pub enum ProductDiscountCandidateTargetView {
    CartLine(CartLineTargetView),
}

/// View of `ProductDiscountCandidate`.
#[verifier::ext_equal]
pub struct ProductDiscountCandidateView {
    pub targets: Seq<ProductDiscountCandidateTargetView>,
    pub message: Option<Seq<char>>,
    pub value: ProductDiscountCandidateValue,
    pub associated_discount_code: Option<Seq<char>>,
}

/// View of `ProductDiscountsAddOperation`.
#[verifier::ext_equal]
pub struct ProductDiscountsAddOperationView {
    pub selection_strategy: ProductDiscountSelectionStrategy,
    pub candidates: Seq<ProductDiscountCandidateView>,
}

/// View of `CartOperation`.
#[verifier::ext_equal]
pub enum CartOperationView {
    ProductDiscountsAdd(ProductDiscountsAddOperationView),
}

/// View of `CartLinesDiscountsGenerateRunResult`.
#[verifier::ext_equal]
pub struct CartLinesDiscountsGenerateRunResultView {
    pub operations: Seq<CartOperationView>,
}

impl View for CartLineTarget {
    type V = CartLineTargetView;

    open spec fn view(&self) -> CartLineTargetView {
        CartLineTargetView {
            id: self.id@,
            quantity: self.quantity,
        }
    }
}

impl View for ProductDiscountCandidateTarget {
    type V = ProductDiscountCandidateTargetView;

    open spec fn view(&self) -> ProductDiscountCandidateTargetView {
        match self {
            ProductDiscountCandidateTarget::CartLine(t) => ProductDiscountCandidateTargetView::CartLine(
                t@,
            ),
        }
    }
}

impl View for ProductDiscountCandidate {
    type V = ProductDiscountCandidateView;

    open spec fn view(&self) -> ProductDiscountCandidateView {
        ProductDiscountCandidateView {
            targets: self.targets@.map_values(|t: ProductDiscountCandidateTarget| t@),
            message: match self.message {
                Some(m) => Some(m@),
                None => None,
            },
            value: self.value,
            associated_discount_code: match self.associated_discount_code {
                Some(c) => Some(c@),
                None => None,
            },
        }
    }
}

impl View for ProductDiscountsAddOperation {
    type V = ProductDiscountsAddOperationView;

    open spec fn view(&self) -> ProductDiscountsAddOperationView {
        ProductDiscountsAddOperationView {
            selection_strategy: self.selection_strategy,
            candidates: self.candidates@.map_values(|c: ProductDiscountCandidate| c@),
        }
    }
}

impl View for CartOperation {
    type V = CartOperationView;

    open spec fn view(&self) -> CartOperationView {
        match self {
            CartOperation::ProductDiscountsAdd(op) => CartOperationView::ProductDiscountsAdd(op@),
        }
    }
}

impl View for CartLinesDiscountsGenerateRunResult {
    type V = CartLinesDiscountsGenerateRunResultView;

    open spec fn view(&self) -> CartLinesDiscountsGenerateRunResultView {
        CartLinesDiscountsGenerateRunResultView {
            operations: self.operations@.map_values(|op: CartOperation| op@),
        }
    }
}

} // verus!
