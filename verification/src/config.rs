//! The merchant-supplied discount configuration: a rule table keyed by SKU,
//! and the lookup of a line's SKU in it.

use vstd::prelude::*;

use crate::decimal::Decimal;

verus! {

/// One discount rule of the configuration. The discriminator of the
/// delivered configuration is an open set of strings; every kind other than
/// "percentage" and "fixedAmount" is carried as `Unrecognized` and treated
/// as no match, so that newer rule kinds degrade to no discount rather than
/// fail.
#[derive(Clone, Copy, PartialEq, Eq, Debug)]
pub enum SkuDiscount {
    Percentage { value: Decimal },
    FixedAmount { amount: Decimal, applies_to_each_item: Option<bool> },
    Unrecognized,
}

impl SkuDiscount {
    /// Whether this rule is of a kind the evaluation knows how to apply.
    pub open spec fn is_recognized(self) -> bool {
        !(self is Unrecognized)
    }

    /// Runtime test matching `is_recognized`.
    pub fn recognized(&self) -> (b: bool)
        ensures
            b == self.is_recognized(),
    {
        !matches!(self, SkuDiscount::Unrecognized)
    }
}

/// One row of the rule table: a SKU and the rule it carries.
#[derive(Clone, PartialEq, Debug)]
pub struct SkuDiscountEntry {
    pub sku: String,
    pub discount: SkuDiscount,
}

/// The merchant-supplied configuration. `discount_code` is informational
/// and never consulted by the evaluation; `sku_discounts` is the rule
/// table, a mapping whose keys are exact, case-sensitive SKU strings.
#[derive(Clone, PartialEq, Debug)]
pub struct Configuration {
    pub discount_code: String,
    pub sku_discounts: Vec<SkuDiscountEntry>,
}

impl Configuration {
    /// The rule table is a mapping: each SKU appears at most once.
    pub open spec fn wf(self) -> bool {
        forall|i: int, j: int|
            0 <= i < j < self.sku_discounts@.len() ==> self.sku_discounts@[i].sku@
                != self.sku_discounts@[j].sku@
    }
}

impl Default for Configuration {
    /// The configuration used when the merchant supplied none: an empty
    /// discount code and an empty rule table.
    fn default() -> (c: Configuration)
        ensures
            c.discount_code@ == Seq::<char>::empty(),
            c.sku_discounts@ == Seq::<SkuDiscountEntry>::empty(),
            c.wf(),
    {
        Configuration { discount_code: String::new(), sku_discounts: Vec::new() }
    }
}

/// The rule the table associates with `sku`: the rule of the first entry
/// whose SKU equals it character for character, or nothing. Under
/// `Configuration::wf` at most one entry can match, so "first" is "the".
pub open spec fn lookup_rule(entries: Seq<SkuDiscountEntry>, sku: Seq<char>) -> Option<SkuDiscount>
    decreases entries.len(),
{
    if entries.len() == 0 {
        None
    } else if entries.first().sku@ == sku {
        Some(entries.first().discount)
    } else {
        lookup_rule(entries.drop_first(), sku)
    }
}

/// What the rule matcher returns: nothing when the line has no SKU, the
/// table lookup otherwise. Total — there is no error case.
pub open spec fn match_rule_spec(sku: Option<String>, configuration: Configuration) -> Option<
    SkuDiscount,
> {
    match sku {
        None => None,
        Some(s) => lookup_rule(configuration.sku_discounts@, s@),
    }
}

/// Looks a line's SKU up in the rule table. Returns nothing when the line
/// carries no SKU or the table has no entry for it.
pub fn match_rule(sku: &Option<String>, configuration: &Configuration) -> (r: Option<SkuDiscount>)
    ensures
        r == match_rule_spec(*sku, *configuration),
{
    match sku {
        None => None,
        Some(s) => {
            let n: usize = configuration.sku_discounts.len();
            let mut i: usize = 0;
            proof {
                assert(configuration.sku_discounts@.skip(0) =~= configuration.sku_discounts@);
            }
            while i < n
                invariant
                    i <= n,
                    n == configuration.sku_discounts@.len(),
                    *sku == Some(*s),
                    lookup_rule(configuration.sku_discounts@, s@) == lookup_rule(
                        configuration.sku_discounts@.skip(i as int),
                        s@,
                    ),
                decreases n - i,
            {
                let entry = &configuration.sku_discounts[i];
                proof {
                    assert(configuration.sku_discounts@.skip(i as int).first() == entry);
                    assert(configuration.sku_discounts@.skip(i as int).drop_first()
                        =~= configuration.sku_discounts@.skip(i as int + 1));
                }
                if entry.sku == *s {
                    proof {
                        assert(entry.sku@ == s@);
                        assert(lookup_rule(configuration.sku_discounts@.skip(i as int), s@)
                            == Some(entry.discount));
                    }
                    return Some(entry.discount);
                }
                i = i + 1;
            }
            proof {
                assert(configuration.sku_discounts@.skip(n as int) =~= Seq::<
                    SkuDiscountEntry,
                >::empty());
            }
            None
        },
    }
}

} // verus!
