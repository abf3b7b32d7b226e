//! Properties of the evaluation that relate several inputs or several calls.
use vstd::prelude::*;
use crate::nisab::{
    applied_threshold, classical_pricing, gold_threshold, is_obligatory, is_verdict_of,
    net_assets, silver_threshold, zakat_due, PricingConfig, Threshold, ZakatRequest,
    ZakatVerdict,
};

verus! {

/// Net assets below both thresholds never make zakat obligatory, and nothing
/// is due. (Under pricing where the gold threshold is the lower one, net
/// assets between the two reach gold, so being below silver alone is not
/// enough there.)
pub proof fn lemma_below_thresholds_nothing_due(r: ZakatRequest, p: PricingConfig)
    requires
        net_assets(r, p) < silver_threshold(p),
        net_assets(r, p) < gold_threshold(p),
    ensures
        !is_obligatory(r, p),
        zakat_due(r, p) == 0,
{
}

/// Under the classical pricing, net assets below the silver threshold never
/// make zakat obligatory, and nothing is due.
pub proof fn lemma_below_silver_nothing_due(r: ZakatRequest)
    requires
        net_assets(r, classical_pricing()) < silver_threshold(classical_pricing()),
    ensures
        !is_obligatory(r, classical_pricing()),
        zakat_due(r, classical_pricing()) == 0,
{
}

/// Net assets that reach the gold threshold make zakat obligatory through
/// the gold nisab, at the rate times net assets.
pub proof fn lemma_gold_reached(r: ZakatRequest, p: PricingConfig)
    requires
        net_assets(r, p) >= gold_threshold(p),
    ensures
        applied_threshold(r, p) == Threshold::Gold,
        is_obligatory(r, p),
        zakat_due(r, p) == net_assets(r, p) * p.rate_basis_points,
{
}

/// More cash, all else equal, never lowers the due amount.
pub proof fn lemma_more_cash_no_less_due(r: ZakatRequest, more_cash: u64, p: PricingConfig)
    requires
        r.cash_cents <= more_cash,
    ensures
        zakat_due(r, p) <= zakat_due(
            ZakatRequest {
                cash_cents: more_cash,
                gold_milligrams: r.gold_milligrams,
                silver_milligrams: r.silver_milligrams,
                debts_cents: r.debts_cents,
            },
            p,
        ),
{
    let s = ZakatRequest {
        cash_cents: more_cash,
        gold_milligrams: r.gold_milligrams,
        silver_milligrams: r.silver_milligrams,
        debts_cents: r.debts_cents,
    };
    let a = net_assets(r, p);
    let b = net_assets(s, p);
    let rate = p.rate_basis_points as int;
    assert(a <= b);
    assert(0 <= gold_threshold(p)) by (nonlinear_arith);
    assert(0 <= silver_threshold(p)) by (nonlinear_arith);
    if is_obligatory(r, p) {
        assert(is_obligatory(s, p));
        assert(0 <= a);
        assert(a * rate <= b * rate) by (nonlinear_arith)
            requires
                a <= b,
                0 <= rate,
        ;
    } else if is_obligatory(s, p) {
        assert(0 <= b * rate) by (nonlinear_arith)
            requires
                0 <= b,
                0 <= rate,
        ;
    }
}

/// Two evaluations of the same declaration under the same pricing give the
/// same verdict, message text included.
pub proof fn lemma_evaluation_repeats(
    v1: ZakatVerdict,
    v2: ZakatVerdict,
    r: ZakatRequest,
    p: PricingConfig,
)
    requires
        is_verdict_of(v1, r, p),
        is_verdict_of(v2, r, p),
    ensures
        v1.net_assets == v2.net_assets,
        v1.applied_threshold == v2.applied_threshold,
        v1.threshold_value == v2.threshold_value,
        v1.zakat_due == v2.zakat_due,
        v1.is_obligatory == v2.is_obligatory,
        v1.message@ == v2.message@,
{
}

/// Under the classical pricing, net assets of exactly 5100.00 (the gold
/// threshold) are obligatory through gold, with 127.50 due.
pub proof fn lemma_classical_gold_boundary(r: ZakatRequest)
    requires
        net_assets(r, classical_pricing()) == gold_threshold(classical_pricing()),
    ensures
        gold_threshold(classical_pricing()) == 510_000_000,
        applied_threshold(r, classical_pricing()) == Threshold::Gold,
        is_obligatory(r, classical_pricing()),
        zakat_due(r, classical_pricing()) == 127_500_000_000,
{
}

/// Under the classical pricing, net assets of exactly 416.50 (the silver
/// threshold, below the gold one) are obligatory through silver, with
/// 10.4125 due.
pub proof fn lemma_classical_silver_boundary(r: ZakatRequest)
    requires
        net_assets(r, classical_pricing()) == silver_threshold(classical_pricing()),
    ensures
        silver_threshold(classical_pricing()) == 41_650_000,
        net_assets(r, classical_pricing()) < gold_threshold(classical_pricing()),
        applied_threshold(r, classical_pricing()) == Threshold::Silver,
        is_obligatory(r, classical_pricing()),
        zakat_due(r, classical_pricing()) == 10_412_500_000,
{
}

} // verus!
