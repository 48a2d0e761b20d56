//! The evaluation itself: scan the cart's lines in order, look each
//! variant's SKU up in the rule table, build a candidate for every match,
//! and wrap the candidates in a single operation — or none.

use vstd::prelude::*;

use crate::cart::{Cart, CartLine, Merchandise};
use crate::config::{match_rule, match_rule_spec, Configuration, SkuDiscount};
use crate::decimal::{fixed_message_chars, percent_message_chars};
use crate::output::{
    CartLineTarget, CartLineTargetView, CartLinesDiscountsGenerateRunResult,
    CartLinesDiscountsGenerateRunResultView, CartOperation, CartOperationView, Percentage,
    ProductDiscountCandidate, ProductDiscountCandidateFixedAmount, ProductDiscountCandidateTarget,
    ProductDiscountCandidateTargetView, ProductDiscountCandidateValue,
    ProductDiscountCandidateView, ProductDiscountSelectionStrategy, ProductDiscountsAddOperation,
    ProductDiscountsAddOperationView,
};

verus! {

/// The rule a line resolves to: nothing when no configuration was supplied,
/// when the line's merchandise is not a product variant, when the variant
/// carries no SKU, or when the SKU is not a key of the rule table.
pub open spec fn line_rule(line: CartLine, configuration: Option<Configuration>) -> Option<
    SkuDiscount,
> {
    match configuration {
        None => None,
        Some(c) => match line.merchandise {
            Merchandise::ProductVariant { sku } => match_rule_spec(sku, c),
            Merchandise::Other => None,
        },
    }
}

/// Whether a line yields a candidate: it resolves to a rule of a
/// recognized kind.
pub open spec fn line_matches(line: CartLine, configuration: Option<Configuration>) -> bool {
    match line_rule(line, configuration) {
        Some(d) => d.is_recognized(),
        None => false,
    }
}

/// The message text a rule yields. Meaningful only for recognized rules;
/// an unrecognized rule never reaches a message.
pub open spec fn message_chars(discount: SkuDiscount) -> Seq<char> {
    match discount {
        SkuDiscount::Percentage { value } => percent_message_chars(value.hundredths as nat),
        SkuDiscount::FixedAmount { amount, .. } => fixed_message_chars(amount.hundredths as nat),
        SkuDiscount::Unrecognized => Seq::<char>::empty(),
    }
}

/// The computed value a rule yields. Meaningful only for recognized rules;
/// the `Unrecognized` arm is a placeholder that no evaluation produces.
pub open spec fn candidate_value(discount: SkuDiscount) -> ProductDiscountCandidateValue {
    match discount {
        SkuDiscount::Percentage { value } => ProductDiscountCandidateValue::Percentage(
            Percentage { value },
        ),
        SkuDiscount::FixedAmount { amount, applies_to_each_item } => {
            ProductDiscountCandidateValue::FixedAmount(
                ProductDiscountCandidateFixedAmount { amount, applies_to_each_item },
            )
        },
        SkuDiscount::Unrecognized => ProductDiscountCandidateValue::Percentage(
            Percentage { value: crate::decimal::Decimal { hundredths: 0 } },
        ),
    }
}

/// The candidate a matched line yields: one target (the line, full
/// quantity), the rule's message, the rule's value, no promotional code.
pub open spec fn candidate_view(line: CartLine, discount: SkuDiscount) -> ProductDiscountCandidateView {
    ProductDiscountCandidateView {
        targets: seq![
            ProductDiscountCandidateTargetView::CartLine(
                CartLineTargetView { id: line.id@, quantity: None },
            ),
        ],
        message: Some(message_chars(discount)),
        value: candidate_value(discount),
        associated_discount_code: None,
    }
}

/// The candidates of a whole cart: one per matching line, in cart order.
pub open spec fn candidates_view(
    lines: Seq<CartLine>,
    configuration: Option<Configuration>,
) -> Seq<ProductDiscountCandidateView>
    decreases lines.len(),
{
    if lines.len() == 0 {
        Seq::<ProductDiscountCandidateView>::empty()
    } else {
        let prefix = candidates_view(lines.drop_last(), configuration);
        match line_rule(lines.last(), configuration) {
            Some(d) => if d.is_recognized() {
                prefix.push(candidate_view(lines.last(), d))
            } else {
                prefix
            },
            None => prefix,
        }
    }
}

/// The assembled result: no operations when there are no candidates, else
/// exactly one apply-all operation carrying them all, in order.
pub open spec fn assembled_view(candidates: Seq<ProductDiscountCandidateView>) -> CartLinesDiscountsGenerateRunResultView {
    if candidates.len() == 0 {
        CartLinesDiscountsGenerateRunResultView { operations: Seq::<CartOperationView>::empty() }
    } else {
        CartLinesDiscountsGenerateRunResultView {
            operations: seq![
                CartOperationView::ProductDiscountsAdd(
                    ProductDiscountsAddOperationView {
                        selection_strategy: ProductDiscountSelectionStrategy::All,
                        candidates: candidates,
                    },
                ),
            ],
        }
    }
}

/// The whole evaluation, as a value: assemble the cart's candidates.
pub open spec fn result_view(
    lines: Seq<CartLine>,
    configuration: Option<Configuration>,
) -> CartLinesDiscountsGenerateRunResultView {
    assembled_view(candidates_view(lines, configuration))
}

/// Builds the candidate for a line that matched the given rule: the line
/// as sole target with no quantity override, the rule's message and value.
pub fn build_candidate(line: &CartLine, discount: &SkuDiscount) -> (candidate:
    ProductDiscountCandidate)
    requires
        discount.is_recognized(),
    ensures
        candidate@ == candidate_view(*line, *discount),
{
    let message: String = match discount {
        SkuDiscount::Percentage { value } => value.percent_message(),
        SkuDiscount::FixedAmount { amount, .. } => amount.fixed_message(),
        SkuDiscount::Unrecognized => vstd::pervasive::unreached(),
    };
    let value: ProductDiscountCandidateValue = match discount {
        SkuDiscount::Percentage { value } => ProductDiscountCandidateValue::Percentage(
            Percentage { value: *value },
        ),
        SkuDiscount::FixedAmount { amount, applies_to_each_item } => {
            ProductDiscountCandidateValue::FixedAmount(
                ProductDiscountCandidateFixedAmount {
                    amount: *amount,
                    applies_to_each_item: *applies_to_each_item,
                },
            )
        },
        SkuDiscount::Unrecognized => vstd::pervasive::unreached(),
    };
    let mut targets: Vec<ProductDiscountCandidateTarget> = Vec::new();
    targets.push(
        ProductDiscountCandidateTarget::CartLine(
            CartLineTarget { id: line.id.clone(), quantity: None },
        ),
    );
    let candidate = ProductDiscountCandidate {
        targets,
        message: Some(message),
        value,
        associated_discount_code: None,
    };
    proof {
        assert(candidate@.targets =~= candidate_view(*line, *discount).targets);
        assert(candidate@ =~= candidate_view(*line, *discount));
    }
    candidate
}

/// Wraps the accumulated candidates: an empty operation list when there
/// are none, else a single apply-all operation carrying them in order.
pub fn assemble(candidates: Vec<ProductDiscountCandidate>) -> (result:
    CartLinesDiscountsGenerateRunResult)
    ensures
        result@ == assembled_view(candidates@.map_values(|c: ProductDiscountCandidate| c@)),
{
    if candidates.len() == 0 {
        let result = CartLinesDiscountsGenerateRunResult { operations: Vec::new() };
        proof {
            assert(result@ =~= assembled_view(
                candidates@.map_values(|c: ProductDiscountCandidate| c@),
            ));
        }
        result
    } else {
        let ghost cands = candidates@.map_values(|c: ProductDiscountCandidate| c@);
        let mut operations: Vec<CartOperation> = Vec::new();
        operations.push(
            CartOperation::ProductDiscountsAdd(
                ProductDiscountsAddOperation {
                    selection_strategy: ProductDiscountSelectionStrategy::All,
                    candidates,
                },
            ),
        );
        let result = CartLinesDiscountsGenerateRunResult { operations };
        proof {
            assert(result@ =~= assembled_view(cands));
        }
        result
    }
}

/// The evaluation: scan the cart's lines in order, look each variant SKU up
/// in the rule table, build one candidate per recognized match, and wrap
/// them into at most one operation. Degrades to an empty result when no
/// configuration was supplied or nothing matched.
pub fn cart_lines_discounts_generate_run(
    cart: &Cart,
    configuration: &Option<Configuration>,
) -> (result: CartLinesDiscountsGenerateRunResult)
    ensures
        result@ == result_view(cart.lines@, *configuration),
{
    let mut candidates: Vec<ProductDiscountCandidate> = Vec::new();
    let n: usize = cart.lines.len();
    let mut i: usize = 0;
    proof {
        assert(cart.lines@.take(0) =~= Seq::<CartLine>::empty());
    }
    while i < n
        invariant
            i <= n,
            n == cart.lines@.len(),
            candidates@.map_values(|c: ProductDiscountCandidate| c@) == candidates_view(
                cart.lines@.take(i as int),
                *configuration,
            ),
        decreases n - i,
    {
        let line = &cart.lines[i];
        match configuration {
            None => {},
            Some(c) => {
                match &line.merchandise {
                    Merchandise::ProductVariant { sku } => {
                        match match_rule(sku, c) {
                            Some(d) => {
                                if d.recognized() {
                                    let candidate = build_candidate(line, &d);
                                    candidates.push(candidate);
                                }
                            },
                            None => {},
                        }
                    },
                    Merchandise::Other => {},
                }
            },
        }
        proof {
            let taken = cart.lines@.take(i as int + 1);
            assert(taken.drop_last() =~= cart.lines@.take(i as int));
            assert(taken.last() == cart.lines@[i as int]);
            assert(candidates@.map_values(|c: ProductDiscountCandidate| c@) =~= candidates_view(
                taken,
                *configuration,
            ));
        }
        i = i + 1;
    }
    proof {
        assert(cart.lines@.take(n as int) =~= cart.lines@);
    }
    assemble(candidates)
}

/// The identifier a candidate target points at.
pub open spec fn target_id(target: ProductDiscountCandidateTargetView) -> Seq<char> {
    match target {
        ProductDiscountCandidateTargetView::CartLine(t) => t.id,
    }
}

/// Whether a candidate targets the cart line with the given identifier.
pub open spec fn targets_line_id(
    candidate: ProductDiscountCandidateView,
    id: Seq<char>,
) -> bool {
    exists|j: int| 0 <= j < candidate.targets.len() && target_id(candidate.targets[j]) == id
}

/// An evaluation result carries zero or one operation, never more.
pub proof fn lemma_at_most_one_operation(lines: Seq<CartLine>, configuration: Option<Configuration>)
    ensures
        result_view(lines, configuration).operations.len() <= 1,
{
}

/// An empty candidate list yields an empty operation list — never an
/// operation wrapping zero candidates; conversely, every operation of a
/// result carries at least one candidate.
pub proof fn lemma_no_empty_operation(lines: Seq<CartLine>, configuration: Option<Configuration>)
    ensures
        candidates_view(lines, configuration).len() == 0 ==> result_view(
            lines,
            configuration,
        ).operations.len() == 0,
        forall|k: int|
            0 <= k < result_view(lines, configuration).operations.len() ==> (match #[trigger] result_view(
                lines,
                configuration,
            ).operations[k] {
                CartOperationView::ProductDiscountsAdd(op) => op.candidates.len() > 0,
            }),
{
}

/// Candidates account for matching lines exactly: for every identifier,
/// the number of candidates targeting it equals the number of matching
/// lines carrying it. In particular a line whose variant SKU is a key of
/// the rule table (with a recognized rule) is targeted by exactly one
/// candidate, and any other line by none.
pub proof fn lemma_one_candidate_per_matching_line(
    lines: Seq<CartLine>,
    configuration: Option<Configuration>,
    id: Seq<char>,
)
    ensures
        candidates_view(lines, configuration).filter(
            |c: ProductDiscountCandidateView| targets_line_id(c, id),
        ).len() == lines.filter(
            |l: CartLine| line_matches(l, configuration) && l.id@ == id,
        ).len(),
    decreases lines.len(),
{
    reveal(Seq::filter);
    let cpred = |c: ProductDiscountCandidateView| targets_line_id(c, id);
    if lines.len() == 0 {
        assert(candidates_view(lines, configuration).filter(cpred).len() == 0);
    } else {
        let rest = lines.drop_last();
        let last = lines.last();
        lemma_one_candidate_per_matching_line(rest, configuration, id);
        let prefix = candidates_view(rest, configuration);
        if line_matches(last, configuration) {
            let d = line_rule(last, configuration)->Some_0;
            let cand = candidate_view(last, d);
            assert(candidates_view(lines, configuration) == prefix.push(cand));
            assert(prefix.push(cand).drop_last() =~= prefix);
            assert(cpred(cand) == (last.id@ == id)) by {
                if last.id@ == id {
                    assert(target_id(cand.targets[0]) == id);
                }
            }
        } else {
            assert(candidates_view(lines, configuration) == prefix);
        }
    }
}

/// Candidate order is cart order: the candidates of an evaluation are
/// exactly the matching lines, in their order in the cart, each mapped to
/// its candidate.
pub proof fn lemma_candidates_follow_line_order(
    lines: Seq<CartLine>,
    configuration: Option<Configuration>,
)
    ensures
        candidates_view(lines, configuration) == lines.filter(
            |l: CartLine| line_matches(l, configuration),
        ).map_values(
            |l: CartLine| candidate_view(
                l,
                match line_rule(l, configuration) {
                    Some(d) => d,
                    None => SkuDiscount::Unrecognized,
                },
            ),
        ),
    decreases lines.len(),
{
    reveal(Seq::filter);
    let lpred = |l: CartLine| line_matches(l, configuration);
    let to_candidate = |l: CartLine| candidate_view(
        l,
        match line_rule(l, configuration) {
            Some(d) => d,
            None => SkuDiscount::Unrecognized,
        },
    );
    if lines.len() == 0 {
        assert(candidates_view(lines, configuration) =~= lines.filter(lpred).map_values(
            to_candidate,
        ));
    } else {
        let rest = lines.drop_last();
        let last = lines.last();
        lemma_candidates_follow_line_order(rest, configuration);
        if line_matches(last, configuration) {
            assert(lines.filter(lpred) == rest.filter(lpred).push(last));
            assert(rest.filter(lpred).push(last).map_values(to_candidate) =~= rest.filter(
                lpred,
            ).map_values(to_candidate).push(to_candidate(last)));
            assert(candidates_view(lines, configuration) =~= lines.filter(lpred).map_values(
                to_candidate,
            ));
        } else {
            assert(candidates_view(lines, configuration) =~= lines.filter(lpred).map_values(
                to_candidate,
            ));
        }
    }
}

/// The evaluation is a pure function of the cart and the configuration:
/// two results of the same pair are one and the same value.
pub proof fn lemma_evaluation_deterministic(
    lines: Seq<CartLine>,
    configuration: Option<Configuration>,
    first: CartLinesDiscountsGenerateRunResultView,
    second: CartLinesDiscountsGenerateRunResultView,
)
    requires
        first == result_view(lines, configuration),
        second == result_view(lines, configuration),
    ensures
        first == second,
{
}

} // verus!
