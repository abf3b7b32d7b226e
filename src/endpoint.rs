//! What the calculation endpoint answers for a declaration.
use vstd::prelude::*;
use crate::nisab::{
    classical_pricing, evaluate, verdict_message, zakat_due, PricingConfig, ZakatRequest,
    ZakatVerdict,
};

verus! {

/// The answer to a declaration: the due amount, in billionths of the currency
/// unit, and its explanation.
#[derive(Clone, Debug, PartialEq, Eq)]
pub struct ZakatResponse {
    pub zakat_due: i128,
    pub message: String,
}

impl ZakatResponse {
    /// The answer that carries a verdict's due amount and message.
    pub fn from_verdict(v: ZakatVerdict) -> (r: ZakatResponse)
        ensures
            r.zakat_due == v.zakat_due,
            r.message@ == v.message@,
    {
        ZakatResponse { zakat_due: v.zakat_due, message: v.message }
    }
}

/// Evaluates a declaration under the classical pricing and answers with the
/// due amount and its explanation.
pub fn calculate_zakat(payload: ZakatRequest) -> (r: ZakatResponse)
    ensures
        r.zakat_due == zakat_due(payload, classical_pricing()),
        r.message@ == verdict_message(payload, classical_pricing()),
{
    let pricing = PricingConfig::classical();
    ZakatResponse::from_verdict(evaluate(&payload, &pricing))
}

} // verus!
