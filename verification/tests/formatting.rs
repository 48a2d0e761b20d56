use discount_function::config::{Configuration, SkuDiscount, SkuDiscountEntry};
use discount_function::decimal::{digits_string, Decimal};

#[test]
fn percent_messages_print_no_forced_decimals() {
    assert_eq!(Decimal { hundredths: 3500 }.percent_message(), "35% OFF");
    assert_eq!(Decimal { hundredths: 4000 }.percent_message(), "40% OFF");
    assert_eq!(Decimal { hundredths: 1250 }.percent_message(), "12.5% OFF");
    assert_eq!(Decimal { hundredths: 1255 }.percent_message(), "12.55% OFF");
    assert_eq!(Decimal { hundredths: 5 }.percent_message(), "0.05% OFF");
    assert_eq!(Decimal { hundredths: 10000 }.percent_message(), "100% OFF");
}

#[test]
fn fixed_messages_always_print_two_decimals() {
    assert_eq!(Decimal { hundredths: 1000 }.fixed_message(), "$10.00 OFF");
    assert_eq!(Decimal { hundredths: 50 }.fixed_message(), "$0.50 OFF");
    assert_eq!(Decimal { hundredths: 5 }.fixed_message(), "$0.05 OFF");
    assert_eq!(Decimal { hundredths: 123456 }.fixed_message(), "$1234.56 OFF");
}

#[test]
fn digits_render_base_ten() {
    assert_eq!(digits_string(0), "0");
    assert_eq!(digits_string(7), "7");
    assert_eq!(digits_string(35), "35");
    assert_eq!(digits_string(120), "120");
    assert_eq!(digits_string(18446744073709551615), "18446744073709551615");
}

#[test]
fn match_rule_finds_exact_keys_only() {
    let configuration = Configuration {
        discount_code: "CODE".to_string(),
        sku_discounts: vec![SkuDiscountEntry {
            sku: "ABC-1".to_string(),
            discount: SkuDiscount::Percentage { value: Decimal { hundredths: 2000 } },
        }],
    };

    assert_eq!(
        discount_function::config::match_rule(&Some("ABC-1".to_string()), &configuration),
        Some(SkuDiscount::Percentage { value: Decimal { hundredths: 2000 } })
    );
    assert_eq!(
        discount_function::config::match_rule(&Some("abc-1".to_string()), &configuration),
        None
    );
    assert_eq!(
        discount_function::config::match_rule(&Some("ABC".to_string()), &configuration),
        None
    );
    assert_eq!(discount_function::config::match_rule(&None, &configuration), None);
}
