use discount_function::cart::{Cart, CartLine, Merchandise};
use discount_function::cart_lines_discounts_generate_run::cart_lines_discounts_generate_run;
use discount_function::config::{Configuration, SkuDiscount, SkuDiscountEntry};
use discount_function::decimal::Decimal;
use discount_function::output::{
    CartLineTarget, CartOperation, ProductDiscountCandidateFixedAmount,
    ProductDiscountCandidateTarget, ProductDiscountCandidateValue, ProductDiscountSelectionStrategy,
};

fn variant_line(id: &str, quantity: u32, sku: &str) -> CartLine {
    CartLine {
        id: id.to_string(),
        quantity,
        merchandise: Merchandise::ProductVariant { sku: Some(sku.to_string()) },
    }
}

fn percentage_entry(sku: &str, hundredths: u64) -> SkuDiscountEntry {
    SkuDiscountEntry {
        sku: sku.to_string(),
        discount: SkuDiscount::Percentage { value: Decimal { hundredths } },
    }
}

fn summer_framing_configuration() -> Configuration {
    Configuration {
        discount_code: "SUMMERFRAMING".to_string(),
        sku_discounts: vec![
            percentage_entry("FRM-JERS-1", 3500),
            percentage_entry("FRM-JERS-2", 4000),
        ],
    }
}

#[test]
fn test_discount_with_sku_match() {
    let cart = Cart {
        lines: vec![variant_line("gid://Shopify/CartLine/1", 1, "FRM-JERS-1")],
    };
    let configuration = Some(summer_framing_configuration());

    let result = cart_lines_discounts_generate_run(&cart, &configuration);
    let operations = result.operations;

    assert_eq!(operations.len(), 1);
    match &operations[0] {
        CartOperation::ProductDiscountsAdd(op) => {
            assert_eq!(op.candidates.len(), 1);
            assert_eq!(op.candidates[0].message, Some("35% OFF".to_string()));
        }
    }
}

#[test]
fn cart_lines_discounts_generate_run_test_discount_with_sku_match() {
    // The historical percentage-only configuration shape, stated in the
    // richer model: the same SKUs and percentages, the same outcome.
    let cart = Cart {
        lines: vec![variant_line("gid://Shopify/CartLine/1", 1, "FRM-JERS-1")],
    };
    let configuration = Some(summer_framing_configuration());

    let result = cart_lines_discounts_generate_run(&cart, &configuration);
    let operations = result.operations;

    assert_eq!(operations.len(), 1);
    match &operations[0] {
        CartOperation::ProductDiscountsAdd(op) => {
            assert_eq!(op.candidates.len(), 1);
            assert_eq!(op.candidates[0].message, Some("35% OFF".to_string()));
        }
    }
}

#[test]
fn test_no_discount_without_matching_sku() {
    let cart = Cart {
        lines: vec![variant_line("gid://Shopify/CartLine/1", 1, "DIFFERENT-SKU")],
    };
    let configuration = Some(summer_framing_configuration());

    let result = cart_lines_discounts_generate_run(&cart, &configuration);

    assert_eq!(result.operations.len(), 0);
}

#[test]
fn cart_lines_discounts_generate_run_test_no_discount_without_matching_sku() {
    let cart = Cart {
        lines: vec![variant_line("gid://Shopify/CartLine/1", 1, "DIFFERENT-SKU")],
    };
    let configuration = Some(summer_framing_configuration());

    let result = cart_lines_discounts_generate_run(&cart, &configuration);

    assert_eq!(result.operations.len(), 0);
}

#[test]
fn test_discount_with_fixed_amount() {
    let cart = Cart {
        lines: vec![variant_line("gid://Shopify/CartLine/1", 2, "FIXED-SKU-1")],
    };
    let configuration = Some(Configuration {
        discount_code: "FIXEDAMOUNT".to_string(),
        sku_discounts: vec![SkuDiscountEntry {
            sku: "FIXED-SKU-1".to_string(),
            discount: SkuDiscount::FixedAmount {
                amount: Decimal { hundredths: 1000 },
                applies_to_each_item: Some(true),
            },
        }],
    });

    let result = cart_lines_discounts_generate_run(&cart, &configuration);
    let operations = result.operations;

    assert_eq!(operations.len(), 1);
    match &operations[0] {
        CartOperation::ProductDiscountsAdd(op) => {
            assert_eq!(op.candidates.len(), 1);
            assert_eq!(op.candidates[0].message, Some("$10.00 OFF".to_string()));
            assert_eq!(
                op.candidates[0].value,
                ProductDiscountCandidateValue::FixedAmount(ProductDiscountCandidateFixedAmount {
                    amount: Decimal { hundredths: 1000 },
                    applies_to_each_item: Some(true),
                })
            );
        }
    }
}

#[test]
fn empty_cart_yields_no_operations() {
    let cart = Cart { lines: vec![] };
    let configuration = Some(summer_framing_configuration());

    let result = cart_lines_discounts_generate_run(&cart, &configuration);

    assert_eq!(result.operations.len(), 0);
}

#[test]
fn missing_configuration_yields_no_operations() {
    let cart = Cart {
        lines: vec![variant_line("gid://Shopify/CartLine/1", 1, "FRM-JERS-1")],
    };

    let result = cart_lines_discounts_generate_run(&cart, &None);

    assert_eq!(result.operations.len(), 0);
}

#[test]
fn non_variant_merchandise_yields_no_candidate() {
    let cart = Cart {
        lines: vec![CartLine {
            id: "gid://Shopify/CartLine/1".to_string(),
            quantity: 1,
            merchandise: Merchandise::Other,
        }],
    };
    let configuration = Some(summer_framing_configuration());

    let result = cart_lines_discounts_generate_run(&cart, &configuration);

    assert_eq!(result.operations.len(), 0);
}

#[test]
fn variant_without_sku_yields_no_candidate() {
    let cart = Cart {
        lines: vec![CartLine {
            id: "gid://Shopify/CartLine/1".to_string(),
            quantity: 1,
            merchandise: Merchandise::ProductVariant { sku: None },
        }],
    };
    let configuration = Some(summer_framing_configuration());

    let result = cart_lines_discounts_generate_run(&cart, &configuration);

    assert_eq!(result.operations.len(), 0);
}

#[test]
fn unrecognized_rule_kind_yields_no_candidate() {
    let cart = Cart {
        lines: vec![variant_line("gid://Shopify/CartLine/1", 1, "NEW-KIND-SKU")],
    };
    let configuration = Some(Configuration {
        discount_code: "NEWKIND".to_string(),
        sku_discounts: vec![SkuDiscountEntry {
            sku: "NEW-KIND-SKU".to_string(),
            discount: SkuDiscount::Unrecognized,
        }],
    });

    let result = cart_lines_discounts_generate_run(&cart, &configuration);

    assert_eq!(result.operations.len(), 0);
}

#[test]
fn candidates_follow_cart_line_order() {
    let cart = Cart {
        lines: vec![
            variant_line("gid://Shopify/CartLine/1", 1, "FRM-JERS-2"),
            variant_line("gid://Shopify/CartLine/2", 1, "NO-SUCH-SKU"),
            variant_line("gid://Shopify/CartLine/3", 1, "FRM-JERS-1"),
        ],
    };
    let configuration = Some(summer_framing_configuration());

    let result = cart_lines_discounts_generate_run(&cart, &configuration);

    assert_eq!(result.operations.len(), 1);
    match &result.operations[0] {
        CartOperation::ProductDiscountsAdd(op) => {
            assert_eq!(op.selection_strategy, ProductDiscountSelectionStrategy::All);
            assert_eq!(op.candidates.len(), 2);
            assert_eq!(
                op.candidates[0].targets,
                vec![ProductDiscountCandidateTarget::CartLine(CartLineTarget {
                    id: "gid://Shopify/CartLine/1".to_string(),
                    quantity: None,
                })]
            );
            assert_eq!(op.candidates[0].message, Some("40% OFF".to_string()));
            assert_eq!(
                op.candidates[1].targets,
                vec![ProductDiscountCandidateTarget::CartLine(CartLineTarget {
                    id: "gid://Shopify/CartLine/3".to_string(),
                    quantity: None,
                })]
            );
            assert_eq!(op.candidates[1].message, Some("35% OFF".to_string()));
        }
    }
}

#[test]
fn evaluation_is_idempotent() {
    let cart = Cart {
        lines: vec![
            variant_line("gid://Shopify/CartLine/1", 1, "FRM-JERS-1"),
            variant_line("gid://Shopify/CartLine/2", 3, "FRM-JERS-2"),
        ],
    };
    let configuration = Some(summer_framing_configuration());

    let first = cart_lines_discounts_generate_run(&cart, &configuration);
    let second = cart_lines_discounts_generate_run(&cart, &configuration);

    assert_eq!(first, second);
}

#[test]
fn default_configuration_is_empty() {
    let configuration = Configuration::default();

    assert_eq!(configuration.discount_code, String::new());
    assert_eq!(configuration.sku_discounts.len(), 0);

    let cart = Cart {
        lines: vec![variant_line("gid://Shopify/CartLine/1", 1, "FRM-JERS-1")],
    };
    let result = cart_lines_discounts_generate_run(&cart, &Some(configuration));
    assert_eq!(result.operations.len(), 0);
}
