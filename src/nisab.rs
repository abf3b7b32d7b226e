//! The nisab evaluator: from declared holdings and debts to a zakat verdict.
//!
//! All amounts are exact integers, so a comparison with a threshold never
//! flips through rounding:
//! - cash and debts are given in cents, holdings of gold and silver in
//!   milligrams, prices in cents per gram and nisabs in whole grams;
//! - values (net assets, thresholds) are counted in value units, hundred
//!   thousandths of the currency unit (a milligram times a cent per gram);
//! - the rate is given in basis points, so the due amount is counted in
//!   billionths of the currency unit (a value unit times a basis point).
//!
//! Negative amounts cannot be declared: every field of a request is unsigned,
//! so a negative amount is refused where the request is built, before any
//! evaluation.
use vstd::prelude::*;
use crate::money::{decimal_text, nanos_to_cents, push_decimal, push_two_places, round_to_cents, two_places_text};

verus! {

/// Billionths of the currency unit in one currency unit: the unit of a due amount.
pub const DUE_UNITS_PER_CURRENCY_UNIT: i128 = 1_000_000_000;

/// What one person declares: cash, gold and silver held, and debts owed.
#[derive(Clone, Copy, Debug, PartialEq, Eq, Structural)]
pub struct ZakatRequest {
    pub cash_cents: u64,
    pub gold_milligrams: u64,
    pub silver_milligrams: u64,
    pub debts_cents: u64,
}

/// Prices, nisabs and the rate that an evaluation uses.
#[derive(Clone, Copy, Debug, PartialEq, Eq, Structural)]
pub struct PricingConfig {
    pub gold_price_cents_per_gram: u32,
    pub silver_price_cents_per_gram: u32,
    pub gold_nisab_grams: u32,
    pub silver_nisab_grams: u32,
    pub rate_basis_points: u16,
}

/// Which nisab made zakat obligatory, if any.
#[derive(Clone, Copy, Debug, PartialEq, Eq, Structural)]
pub enum Threshold {
    Gold,
    Silver,
    Neither,
}

/// The outcome of an evaluation.
#[derive(Clone, Debug, PartialEq, Eq)]
pub struct ZakatVerdict {
    /// Cash plus the value of gold and silver, minus debts, in value units;
    /// negative where debts exceed assets.
    pub net_assets: i128,
    pub applied_threshold: Threshold,
    /// The threshold that was applied, or the lower of the two where none
    /// was, in value units.
    pub threshold_value: i128,
    /// In billionths of the currency unit.
    pub zakat_due: i128,
    pub is_obligatory: bool,
    pub message: String,
}

/// Gold at 60.00 per gram, silver at 0.70 per gram, the classical nisabs of
/// 85 g of gold and 595 g of silver, and a rate of 2.5%.
pub open spec fn classical_pricing() -> PricingConfig {
    PricingConfig {
        gold_price_cents_per_gram: 6000,
        silver_price_cents_per_gram: 70,
        gold_nisab_grams: 85,
        silver_nisab_grams: 595,
        rate_basis_points: 250,
    }
}

pub open spec fn gold_value(r: ZakatRequest, p: PricingConfig) -> int {
    r.gold_milligrams * p.gold_price_cents_per_gram
}

pub open spec fn silver_value(r: ZakatRequest, p: PricingConfig) -> int {
    r.silver_milligrams * p.silver_price_cents_per_gram
}

/// Cash plus the value of gold and silver, minus debts, in value units.
pub open spec fn net_assets(r: ZakatRequest, p: PricingConfig) -> int {
    r.cash_cents * 1000 + gold_value(r, p) + silver_value(r, p) - r.debts_cents * 1000
}

/// The value of the gold nisab, in value units.
pub open spec fn gold_threshold(p: PricingConfig) -> int {
    p.gold_nisab_grams * 1000 * p.gold_price_cents_per_gram
}

/// The value of the silver nisab, in value units.
pub open spec fn silver_threshold(p: PricingConfig) -> int {
    p.silver_nisab_grams * 1000 * p.silver_price_cents_per_gram
}

/// Gold first: the gold nisab applies where net assets reach it, else the
/// silver nisab where they reach that, else none.
pub open spec fn applied_threshold(r: ZakatRequest, p: PricingConfig) -> Threshold {
    if net_assets(r, p) >= gold_threshold(p) {
        Threshold::Gold
    } else if net_assets(r, p) >= silver_threshold(p) {
        Threshold::Silver
    } else {
        Threshold::Neither
    }
}

pub open spec fn is_obligatory(r: ZakatRequest, p: PricingConfig) -> bool {
    applied_threshold(r, p) != Threshold::Neither
}

pub open spec fn threshold_value(r: ZakatRequest, p: PricingConfig) -> int {
    match applied_threshold(r, p) {
        Threshold::Gold => gold_threshold(p),
        Threshold::Silver => silver_threshold(p),
        Threshold::Neither => if gold_threshold(p) <= silver_threshold(p) {
            gold_threshold(p)
        } else {
            silver_threshold(p)
        },
    }
}

/// The rate times net assets where zakat is obligatory, else zero, in
/// billionths of the currency unit.
pub open spec fn zakat_due(r: ZakatRequest, p: PricingConfig) -> int {
    if is_obligatory(r, p) {
        net_assets(r, p) * p.rate_basis_points
    } else {
        0
    }
}

/// The explanation that goes with a verdict; the due amount is rounded to the cent.
pub open spec fn verdict_message(r: ZakatRequest, p: PricingConfig) -> Seq<char> {
    match applied_threshold(r, p) {
        Threshold::Gold => "You owe $"@ + two_places_text(nanos_to_cents(zakat_due(r, p) as nat))
            + " based on gold nisab ("@ + decimal_text(p.gold_nisab_grams as nat) + " g)."@,
        Threshold::Silver => "You owe $"@ + two_places_text(
            nanos_to_cents(zakat_due(r, p) as nat),
        ) + " based on silver nisab ("@ + decimal_text(p.silver_nisab_grams as nat) + " g)."@,
        Threshold::Neither => "No zakat due: your net assets did not meet either nisab threshold."@,
    }
}

/// `v` is what evaluating `r` under `p` gives.
pub open spec fn is_verdict_of(v: ZakatVerdict, r: ZakatRequest, p: PricingConfig) -> bool {
    &&& v.net_assets == net_assets(r, p)
    &&& v.applied_threshold == applied_threshold(r, p)
    &&& v.threshold_value == threshold_value(r, p)
    &&& v.zakat_due == zakat_due(r, p)
    &&& v.is_obligatory == is_obligatory(r, p)
    &&& v.message@ == verdict_message(r, p)
}

impl PricingConfig {
    /// The classical figures (see `classical_pricing`).
    pub fn classical() -> (p: PricingConfig)
        ensures
            p == classical_pricing(),
    {
        PricingConfig {
            gold_price_cents_per_gram: 6000,
            silver_price_cents_per_gram: 70,
            gold_nisab_grams: 85,
            silver_nisab_grams: 595,
            rate_basis_points: 250,
        }
    }
}

/// The value of `milligrams` of a metal at `cents_per_gram`, in value units.
fn metal_value(milligrams: u64, cents_per_gram: u32) -> (v: i128)
    ensures
        v == milligrams * cents_per_gram,
        0 <= v < 0x1_0000_0000_0000_0000_0000_0000,
{
    let m = milligrams as i128;
    let c = cents_per_gram as i128;
    assert(0 <= m * c < 0x1_0000_0000_0000_0000_0000_0000) by (nonlinear_arith)
        requires
            0 <= m < 0x1_0000_0000_0000_0000,
            0 <= c < 0x1_0000_0000,
    ;
    m * c
}

/// The value of a nisab of `grams` of a metal at `cents_per_gram`, in value units.
fn nisab_value(grams: u32, cents_per_gram: u32) -> (v: i128)
    ensures
        v == grams * 1000 * cents_per_gram,
        0 <= v < 0x1_0000_0000_0000_0000_0000,
{
    let g = grams as i128 * 1000;
    let c = cents_per_gram as i128;
    assert(0 <= g * c < 0x1_0000_0000_0000_0000_0000) by (nonlinear_arith)
        requires
            0 <= g < 0x1_0000_0000 * 1000,
            0 <= c < 0x1_0000_0000,
    ;
    g * c
}

/// The explanation for a verdict with the given threshold and due amount.
fn compose_message(applied: Threshold, due: i128, pricing: &PricingConfig) -> (m: String)
    requires
        0 <= due < 0x4_0000_0000_0000_0000_0000_0000_0000,
    ensures
        applied == Threshold::Gold ==> m@ == "You owe $"@ + two_places_text(
            nanos_to_cents(due as nat),
        ) + " based on gold nisab ("@ + decimal_text(pricing.gold_nisab_grams as nat) + " g)."@,
        applied == Threshold::Silver ==> m@ == "You owe $"@ + two_places_text(
            nanos_to_cents(due as nat),
        ) + " based on silver nisab ("@ + decimal_text(pricing.silver_nisab_grams as nat)
            + " g)."@,
        applied == Threshold::Neither ==> m@
            == "No zakat due: your net assets did not meet either nisab threshold."@,
{
    match applied {
        Threshold::Neither => String::from_str(
            "No zakat due: your net assets did not meet either nisab threshold.",
        ),
        _ => {
            let mut m = String::from_str("You owe $");
            push_two_places(&mut m, round_to_cents(due as u128));
            if applied == Threshold::Gold {
                m.append(" based on gold nisab (");
                push_decimal(&mut m, pricing.gold_nisab_grams as u128);
            } else {
                m.append(" based on silver nisab (");
                push_decimal(&mut m, pricing.silver_nisab_grams as u128);
            }
            m.append(" g).");
            m
        },
    }
}

/// Evaluates a declaration under the given pricing: net assets, the nisab
/// that applies (gold first), the due amount and its explanation.
pub fn evaluate(request: &ZakatRequest, pricing: &PricingConfig) -> (v: ZakatVerdict)
    ensures
        is_verdict_of(v, *request, *pricing),
        0 <= v.zakat_due,
{
    let cash = request.cash_cents as i128 * 1000;
    let debts = request.debts_cents as i128 * 1000;
    let gold = metal_value(request.gold_milligrams, pricing.gold_price_cents_per_gram);
    let silver = metal_value(request.silver_milligrams, pricing.silver_price_cents_per_gram);
    let net = cash + gold + silver - debts;
    let gold_threshold = nisab_value(pricing.gold_nisab_grams, pricing.gold_price_cents_per_gram);
    let silver_threshold = nisab_value(
        pricing.silver_nisab_grams,
        pricing.silver_price_cents_per_gram,
    );
    let (applied, threshold) = if net >= gold_threshold {
        (Threshold::Gold, gold_threshold)
    } else if net >= silver_threshold {
        (Threshold::Silver, silver_threshold)
    } else if gold_threshold <= silver_threshold {
        (Threshold::Neither, gold_threshold)
    } else {
        (Threshold::Neither, silver_threshold)
    };
    let obligatory = applied != Threshold::Neither;
    let due: i128 = if obligatory {
        let rate = pricing.rate_basis_points as i128;
        assert(0 <= net * rate < 0x4_0000_0000_0000_0000_0000_0000_0000) by (nonlinear_arith)
            requires
                0 <= net < 0x4_0000_0000_0000_0000_0000_0000,
                0 <= rate < 0x1_0000,
        ;
        net * rate
    } else {
        0
    };
    let message = compose_message(applied, due, pricing);
    ZakatVerdict {
        net_assets: net,
        applied_threshold: applied,
        threshold_value: threshold,
        zakat_due: due,
        is_obligatory: obligatory,
        message,
    }
}

} // verus!
