//! Pure invariant checkers over observed engine state.
//!
//! Every checker is pure and fail-closed: where a quantity needed to clear a
//! check cannot be computed exactly in machine arithmetic, the checker reports
//! a violation rather than risk clearing a breach. Each checker has an
//! allocation-free core returning a `Copy` kind, and a reporting wrapper that
//! builds a human-readable [`Violation`] on the error path only.
use vstd::prelude::*;

pub mod realizability;
pub mod cross_link;
pub mod isolation;
pub mod adl;
pub mod conservation;
pub mod funding;

pub use realizability::{
    check_observation, realizability, realizability_kind, ViolationKind,
};
pub use cross_link::{
    check_observation_market, cross_link_kind, market_cross_link, CrossLinkKind,
};
pub use isolation::{
    check_step_insurance_isolation, isolation_kind, liquidation_insurance_isolation, IsolationKind,
};
pub use adl::{
    adl_accounting, adl_accounting_kind, check_step_adl_accounting, AdlAccountingKind,
};
pub use conservation::{
    check_step_value_conservation, value_conservation, value_conservation_kind, ConservationKind,
};
pub use funding::{
    claimable_shortfall, claimable_value, funding_conservation_kind, funding_value_conservation,
    FundingConservationKind,
};

verus! {

/// The scale of claim/backing "num" fields (and of credit rates).
pub const SCALE: u128 = 1_000_000_000_000;

/// The value of `x as i128` (two's complement reinterpretation).
pub open spec fn cast_i128(x: u128) -> int {
    if x <= i128::MAX {
        x as int
    } else {
        x - 0x1_0000_0000_0000_0000_0000_0000_0000_0000int
    }
}

/// `x as i128`.
pub fn as_i128(x: u128) -> (r: i128)
    ensures
        r as int == cast_i128(x),
{
    if x <= i128::MAX as u128 {
        x as i128
    } else {
        let low = x - 0x8000_0000_0000_0000_0000_0000_0000_0000u128;
        (low as i128) + i128::MIN
    }
}

/// `a` plus `b`, saturating at `u128::MAX`.
pub open spec fn sat_add(a: int, b: int) -> int {
    if a + b > u128::MAX {
        u128::MAX as int
    } else {
        a + b
    }
}

/// A detected breach of an engine-asserted relationship.
#[derive(Clone, Debug, PartialEq, Eq)]
pub struct Violation {
    /// The requirement or engine citation whose guarantee was broken
    /// (e.g. `"R2"`).
    pub requirement: &'static str,
    /// Human-readable detail, including which account/domain when known.
    pub detail: String,
}

} // verus!
