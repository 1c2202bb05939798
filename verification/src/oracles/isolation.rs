//! Liquidation insurance-domain isolation: a cross-step (delta) check over each
//! market side's running `insurance_domain_spent`.
//!
//! Across one liquidation step:
//! (I1) every side's spend is monotone (`cur >= prev`);
//! (I2) only sides of the liquidated asset may increase;
//! (I3) the total increase over all observed sides equals `insurance_used`.
use vstd::prelude::*;
use crate::driver::{MarketSideObs, Observation};
use crate::oracles::cross_link::{find_side, find_side_index, lemma_find_side};
use crate::oracles::Violation;
use crate::scenario::Action;
use crate::text::{decimal, push_decimal};

verus! {

/// Which isolation relationship was broken.
#[derive(Clone, Copy, Debug, PartialEq, Eq, Structural)]
pub enum IsolationKind {
    /// (I1) a side's spend decreased, or a side in `cur` has no baseline in
    /// `prev`.
    SpendNotMonotone,
    /// (I2) a side not of the liquidated asset increased its spend.
    CrossDomainDrain,
    /// (I3) the total spend increase does not equal `insurance_used`.
    InsuranceSpendUnaccounted,
}

/// The citation each isolation kind breaks.
pub open spec fn isolation_requirement(kind: IsolationKind) -> Seq<char> {
    match kind {
        IsolationKind::SpendNotMonotone => "insurance isolation (v16.rs:5974)"@,
        IsolationKind::CrossDomainDrain => "insurance isolation (v16.rs:5955)"@,
        IsolationKind::InsuranceSpendUnaccounted => "insurance isolation (v16.rs:5980)"@,
    }
}

impl IsolationKind {
    /// The engine citation this breaks.
    pub fn requirement(self) -> (r: &'static str)
        ensures
            r@ == isolation_requirement(self),
    {
        match self {
            IsolationKind::SpendNotMonotone => "insurance isolation (v16.rs:5974)",
            IsolationKind::CrossDomainDrain => "insurance isolation (v16.rs:5955)",
            IsolationKind::InsuranceSpendUnaccounted => "insurance isolation (v16.rs:5980)",
        }
    }
}

/// The spend of the (first) side keyed `(asset, side)`.
pub open spec fn spent_spec(sides: Seq<MarketSideObs>, asset: usize, side: u8) -> Option<u128> {
    match find_side(sides, asset, side, 0) {
        Some(k) => Some(sides[k].insurance_domain_spent),
        None => None,
    }
}

fn spent_of(sides: &[MarketSideObs], asset: usize, side: u8) -> (r: Option<u128>)
    ensures
        r == spent_spec(sides@, asset, side),
{
    proof {
        lemma_find_side(sides@, asset, side, 0);
    }
    match find_side_index(sides, asset, side) {
        Some(k) => Some(sides[k].insurance_domain_spent),
        None => None,
    }
}

/// Scan the sides of `cur` from index `i` with running increase `total`:
/// the final total, or the first broken relationship with its side.
pub open spec fn iso_scan(
    prev: Seq<MarketSideObs>,
    cur: Seq<MarketSideObs>,
    liquidated_asset: usize,
    i: int,
    total: int,
) -> Result<int, (IsolationKind, usize, u8)>
    decreases cur.len() - i,
{
    if i < 0 || i >= cur.len() {
        Ok(total)
    } else {
        let m = cur[i];
        match spent_spec(prev, m.asset, m.side) {
            None => Err((IsolationKind::SpendNotMonotone, m.asset, m.side)),
            Some(before) => {
                if m.insurance_domain_spent < before {
                    Err((IsolationKind::SpendNotMonotone, m.asset, m.side))
                } else if m.insurance_domain_spent == before {
                    iso_scan(prev, cur, liquidated_asset, i + 1, total)
                } else if m.asset != liquidated_asset {
                    Err((IsolationKind::CrossDomainDrain, m.asset, m.side))
                } else if total + (m.insurance_domain_spent - before) > u128::MAX {
                    Err((IsolationKind::InsuranceSpendUnaccounted, m.asset, m.side))
                } else {
                    iso_scan(
                        prev,
                        cur,
                        liquidated_asset,
                        i + 1,
                        total + (m.insurance_domain_spent - before),
                    )
                }
            },
        }
    }
}

/// The isolation verdict over a `(prev, cur)` pair of market sides.
pub open spec fn isolation_spec(
    prev: Seq<MarketSideObs>,
    cur: Seq<MarketSideObs>,
    liquidated_asset: usize,
    insurance_used: u128,
) -> Result<(), (IsolationKind, usize, u8)> {
    match iso_scan(prev, cur, liquidated_asset, 0, 0) {
        Err(e) => Err(e),
        Ok(total) => if total != insurance_used {
            Err((IsolationKind::InsuranceSpendUnaccounted, liquidated_asset, 0u8))
        } else {
            Ok(())
        },
    }
}

/// Isolation arithmetic core: `Ok(())` iff (I1)-(I3) hold, else the first
/// broken relationship with the offending side's `(asset, side)`.
pub fn isolation_kind(
    prev: &[MarketSideObs],
    cur: &[MarketSideObs],
    liquidated_asset: usize,
    insurance_used: u128,
) -> (r: Result<(), (IsolationKind, usize, u8)>)
    ensures
        r == isolation_spec(prev@, cur@, liquidated_asset, insurance_used),
{
    let mut total_increase: u128 = 0;
    let mut i: usize = 0;
    while i < cur.len()
        invariant
            i <= cur@.len(),
            iso_scan(prev@, cur@, liquidated_asset, 0, 0) == iso_scan(
                prev@,
                cur@,
                liquidated_asset,
                i as int,
                total_increase as int,
            ),
        decreases cur@.len() - i,
    {
        let m = &cur[i];
        let before = match spent_of(prev, m.asset, m.side) {
            Some(v) => v,
            None => return Err((IsolationKind::SpendNotMonotone, m.asset, m.side)),
        };
        let after = m.insurance_domain_spent;
        let delta = match after.checked_sub(before) {
            Some(d) => d,
            None => return Err((IsolationKind::SpendNotMonotone, m.asset, m.side)),
        };
        if delta != 0 {
            if m.asset != liquidated_asset {
                return Err((IsolationKind::CrossDomainDrain, m.asset, m.side));
            }
            total_increase = match total_increase.checked_add(delta) {
                Some(v) => v,
                None => return Err((IsolationKind::InsuranceSpendUnaccounted, m.asset, m.side)),
            };
        }
        i = i + 1;
    }
    if total_increase != insurance_used {
        return Err((IsolationKind::InsuranceSpendUnaccounted, liquidated_asset, 0));
    }
    Ok(())
}

/// The human-readable detail of an isolation breach.
pub open spec fn isolation_detail(
    kind: IsolationKind,
    asset: usize,
    side: u8,
    liquidated_asset: usize,
    insurance_used: u128,
) -> Seq<char> {
    match kind {
        IsolationKind::SpendNotMonotone => "asset "@ + decimal(asset as nat) + ", side "@ + decimal(
            side as nat,
        )
            + ": insurance_domain_spent moved backward or has no pre-liquidation baseline; cannot certify the spend delta (liquidated asset "@
            + decimal(liquidated_asset as nat) + ")"@,
        IsolationKind::CrossDomainDrain => "asset "@ + decimal(asset as nat) + ", side "@ + decimal(
            side as nat,
        ) + ": insurance_domain_spent increased while liquidating asset "@ + decimal(
            liquidated_asset as nat,
        )
            + " — a cross-domain insurance drain (v16.rs:5955 charges only the liquidated asset's bankruptcy domain)"@,
        IsolationKind::InsuranceSpendUnaccounted => "liquidated asset "@ + decimal(
            liquidated_asset as nat,
        )
            + ": total insurance_domain_spent increase across observed domains does not equal the outcome's insurance_used("@
            + decimal(insurance_used as nat)
            + ") (v16.rs:5980 increments the liquidated domain by exactly insurance_used)"@,
    }
}

fn describe_isolation(
    kind: IsolationKind,
    asset: usize,
    side: u8,
    liquidated_asset: usize,
    insurance_used: u128,
) -> (s: String)
    ensures
        s@ == isolation_detail(kind, asset, side, liquidated_asset, insurance_used),
{
    match kind {
        IsolationKind::SpendNotMonotone => {
            let mut s = String::from_str("asset ");
            push_decimal(&mut s, asset as u128);
            s.append(", side ");
            push_decimal(&mut s, side as u128);
            s.append(
                ": insurance_domain_spent moved backward or has no pre-liquidation baseline; cannot certify the spend delta (liquidated asset ",
            );
            push_decimal(&mut s, liquidated_asset as u128);
            s.append(")");
            s
        },
        IsolationKind::CrossDomainDrain => {
            let mut s = String::from_str("asset ");
            push_decimal(&mut s, asset as u128);
            s.append(", side ");
            push_decimal(&mut s, side as u128);
            s.append(": insurance_domain_spent increased while liquidating asset ");
            push_decimal(&mut s, liquidated_asset as u128);
            s.append(
                " — a cross-domain insurance drain (v16.rs:5955 charges only the liquidated asset's bankruptcy domain)",
            );
            s
        },
        IsolationKind::InsuranceSpendUnaccounted => {
            let mut s = String::from_str("liquidated asset ");
            push_decimal(&mut s, liquidated_asset as u128);
            s.append(
                ": total insurance_domain_spent increase across observed domains does not equal the outcome's insurance_used(",
            );
            push_decimal(&mut s, insurance_used);
            s.append(") (v16.rs:5980 increments the liquidated domain by exactly insurance_used)");
            s
        },
    }
}

/// The liquidated asset named by a liquidation step.
pub open spec fn liquidated_asset_of(a: Action) -> Option<usize> {
    match a {
        Action::Liquidate { asset, .. } => Some(asset as usize),
        _ => None,
    }
}

/// Isolation oracle over a consecutive `(prev, cur)` pair: a no-op unless `cur`
/// carries a liquidation outcome; then the liquidation may spend shared
/// insurance only on the liquidated asset's domains, exactly `insurance_used`.
pub fn liquidation_insurance_isolation(prev: &Observation, cur: &Observation) -> (r: Result<
    (),
    Violation,
>)
    ensures
        cur.liquidation is None ==> r is Ok,
        cur.liquidation matches Some(liq) ==> match liquidated_asset_of(cur.action) {
            None => r matches Err(v) && v.requirement@ == isolation_requirement(
                IsolationKind::CrossDomainDrain,
            ) && v.detail@
                == "liquidation outcome present on a non-Liquidate step; cannot identify the liquidated asset to certify isolation"@,
            Some(asset) => match isolation_spec(
                prev.market_domains@,
                cur.market_domains@,
                asset,
                liq.insurance_used,
            ) {
                Ok(()) => r is Ok,
                Err((kind, a, s)) => r matches Err(v) && v.requirement@ == isolation_requirement(
                    kind,
                ) && v.detail@ == isolation_detail(kind, a, s, asset, liq.insurance_used),
            },
        },
        cur.liquidation matches Some(liq) ==> cur.action matches Action::Liquidate { asset, .. } ==> (r
            is Ok <==> isolation_holds(
            prev.market_domains@,
            cur.market_domains@,
            asset as usize,
            liq.insurance_used,
        )),
{
    let liq = match &cur.liquidation {
        None => return Ok(()),
        Some(l) => l,
    };
    let liquidated_asset = match cur.action {
        Action::Liquidate { asset, .. } => asset as usize,
        _ => {
            return Err(
                Violation {
                    requirement: IsolationKind::CrossDomainDrain.requirement(),
                    detail: String::from_str(
                        "liquidation outcome present on a non-Liquidate step; cannot identify the liquidated asset to certify isolation",
                    ),
                },
            );
        },
    };
    proof {
        lemma_isolation_verdict(
            prev.market_domains@,
            cur.market_domains@,
            liquidated_asset,
            liq.insurance_used,
        );
    }
    match isolation_kind(
        prev.market_domains.as_slice(),
        cur.market_domains.as_slice(),
        liquidated_asset,
        liq.insurance_used,
    ) {
        Ok(()) => Ok(()),
        Err((kind, asset, side)) => Err(
            Violation {
                requirement: kind.requirement(),
                detail: describe_isolation(kind, asset, side, liquidated_asset, liq.insurance_used),
            },
        ),
    }
}

/// [`liquidation_insurance_isolation`] over a consecutive observation pair.
pub fn check_step_insurance_isolation(prev: &Observation, cur: &Observation) -> (r: Result<
    (),
    Violation,
>)
    ensures
        cur.liquidation is None ==> r is Ok,
        cur.liquidation matches Some(liq) ==> match liquidated_asset_of(cur.action) {
            None => r matches Err(v) && v.requirement@ == isolation_requirement(
                IsolationKind::CrossDomainDrain,
            ) && v.detail@
                == "liquidation outcome present on a non-Liquidate step; cannot identify the liquidated asset to certify isolation"@,
            Some(asset) => match isolation_spec(
                prev.market_domains@,
                cur.market_domains@,
                asset,
                liq.insurance_used,
            ) {
                Ok(()) => r is Ok,
                Err((kind, a, s)) => r matches Err(v) && v.requirement@ == isolation_requirement(
                    kind,
                ) && v.detail@ == isolation_detail(kind, a, s, asset, liq.insurance_used),
            },
        },
        cur.liquidation matches Some(liq) ==> cur.action matches Action::Liquidate { asset, .. } ==> (r
            is Ok <==> isolation_holds(
            prev.market_domains@,
            cur.market_domains@,
            asset as usize,
            liq.insurance_used,
        )),
{
    liquidation_insurance_isolation(prev, cur)
}

/// Sum over the sides of `cur` from index `i` of their spend increase against
/// their baseline in `prev`.
pub open spec fn spend_increase(prev: Seq<MarketSideObs>, cur: Seq<MarketSideObs>, i: int) -> int
    decreases cur.len() - i,
{
    if i < 0 || i >= cur.len() {
        0
    } else {
        (cur[i].insurance_domain_spent - spent_spec(prev, cur[i].asset, cur[i].side)->Some_0)
            + spend_increase(prev, cur, i + 1)
    }
}

proof fn lemma_iso_scan_sound(
    prev: Seq<MarketSideObs>,
    cur: Seq<MarketSideObs>,
    liquidated_asset: usize,
    i: int,
    total: int,
)
    requires
        0 <= i,
        iso_scan(prev, cur, liquidated_asset, i, total) is Ok,
    ensures
        iso_scan(prev, cur, liquidated_asset, i, total)->Ok_0 == total + spend_increase(prev, cur, i),
        forall|j: int|
            i <= j < cur.len() ==> {
                let m = #[trigger] cur[j];
                &&& spent_spec(prev, m.asset, m.side) is Some
                &&& spent_spec(prev, m.asset, m.side)->Some_0 <= m.insurance_domain_spent
                &&& m.asset != liquidated_asset ==> spent_spec(prev, m.asset, m.side)->Some_0
                    == m.insurance_domain_spent
            },
    decreases cur.len() - i,
{
    if i < cur.len() {
        let m = cur[i];
        let before = spent_spec(prev, m.asset, m.side)->Some_0;
        if m.insurance_domain_spent == before {
            lemma_iso_scan_sound(prev, cur, liquidated_asset, i + 1, total);
        } else {
            lemma_iso_scan_sound(
                prev,
                cur,
                liquidated_asset,
                i + 1,
                total + (m.insurance_domain_spent - before),
            );
        }
    }
}

/// The isolation checker is sound: when it clears a liquidation step, every
/// observed side has a baseline and its spend did not decrease, every side of
/// another asset kept its spend, and the total spend increase equals
/// `insurance_used` — so `insurance_used` is exactly what the liquidated
/// asset's domains gained.
pub proof fn lemma_isolation_sound(
    prev: Seq<MarketSideObs>,
    cur: Seq<MarketSideObs>,
    liquidated_asset: usize,
    insurance_used: u128,
)
    requires
        isolation_spec(prev, cur, liquidated_asset, insurance_used) is Ok,
    ensures
        forall|j: int|
            0 <= j < cur.len() ==> {
                let m = #[trigger] cur[j];
                &&& spent_spec(prev, m.asset, m.side) is Some
                &&& spent_spec(prev, m.asset, m.side)->Some_0 <= m.insurance_domain_spent
                &&& m.asset != liquidated_asset ==> spent_spec(prev, m.asset, m.side)->Some_0
                    == m.insurance_domain_spent
            },
        spend_increase(prev, cur, 0) == insurance_used,
{
    lemma_iso_scan_sound(prev, cur, liquidated_asset, 0, 0);
}

/// A liquidation of `liquidated_asset` spent insurance as isolation demands:
/// every observed side of `cur` has a baseline in `prev` and did not lower its
/// spend, every side of another asset kept its spend, and the sides' total
/// spend increase is `insurance_used`.
pub open spec fn isolation_holds(
    prev: Seq<MarketSideObs>,
    cur: Seq<MarketSideObs>,
    liquidated_asset: usize,
    insurance_used: u128,
) -> bool {
    &&& forall|j: int|
        0 <= j < cur.len() ==> {
            let m = #[trigger] cur[j];
            &&& spent_spec(prev, m.asset, m.side) is Some
            &&& spent_spec(prev, m.asset, m.side)->Some_0 <= m.insurance_domain_spent
            &&& m.asset != liquidated_asset ==> spent_spec(prev, m.asset, m.side)->Some_0
                == m.insurance_domain_spent
        }
    &&& spend_increase(prev, cur, 0) == insurance_used
}

proof fn lemma_spend_increase_nonneg(prev: Seq<MarketSideObs>, cur: Seq<MarketSideObs>, i: int)
    requires
        0 <= i,
        forall|j: int|
            i <= j < cur.len() ==> {
                let m = #[trigger] cur[j];
                spent_spec(prev, m.asset, m.side)->Some_0 <= m.insurance_domain_spent
            },
    ensures
        spend_increase(prev, cur, i) >= 0,
    decreases cur.len() - i,
{
    if i < cur.len() {
        lemma_spend_increase_nonneg(prev, cur, i + 1);
    }
}

proof fn lemma_iso_scan_complete(
    prev: Seq<MarketSideObs>,
    cur: Seq<MarketSideObs>,
    liquidated_asset: usize,
    i: int,
    total: int,
)
    requires
        0 <= i,
        0 <= total,
        total + spend_increase(prev, cur, i) <= u128::MAX,
        forall|j: int|
            i <= j < cur.len() ==> {
                let m = #[trigger] cur[j];
                &&& spent_spec(prev, m.asset, m.side) is Some
                &&& spent_spec(prev, m.asset, m.side)->Some_0 <= m.insurance_domain_spent
                &&& m.asset != liquidated_asset ==> spent_spec(prev, m.asset, m.side)->Some_0
                    == m.insurance_domain_spent
            },
    ensures
        iso_scan(prev, cur, liquidated_asset, i, total) == Ok::<int, (IsolationKind, usize, u8)>(
            total + spend_increase(prev, cur, i),
        ),
    decreases cur.len() - i,
{
    if i < cur.len() {
        let m = cur[i];
        let before = spent_spec(prev, m.asset, m.side)->Some_0;
        lemma_spend_increase_nonneg(prev, cur, i + 1);
        if m.insurance_domain_spent == before {
            lemma_iso_scan_complete(prev, cur, liquidated_asset, i + 1, total);
        } else {
            lemma_iso_scan_complete(
                prev,
                cur,
                liquidated_asset,
                i + 1,
                total + (m.insurance_domain_spent - before),
            );
        }
    }
}

/// The isolation checker clears a liquidation step of `liquidated_asset`
/// exactly when [`isolation_holds`]: only that asset's sides raised their
/// spend, none lowered it, and the total rise is `insurance_used`.
pub proof fn lemma_isolation_verdict(
    prev: Seq<MarketSideObs>,
    cur: Seq<MarketSideObs>,
    liquidated_asset: usize,
    insurance_used: u128,
)
    ensures
        isolation_spec(prev, cur, liquidated_asset, insurance_used) is Ok <==> isolation_holds(
            prev,
            cur,
            liquidated_asset,
            insurance_used,
        ),
{
    if isolation_spec(prev, cur, liquidated_asset, insurance_used) is Ok {
        lemma_isolation_sound(prev, cur, liquidated_asset, insurance_used);
    }
    if isolation_holds(prev, cur, liquidated_asset, insurance_used) {
        lemma_iso_scan_complete(prev, cur, liquidated_asset, 0, 0);
    }
}

/// The baseline spend of a side is read from the first observed side with the
/// same `(asset, side)` key; there is none exactly when no observed side
/// carries that key.
pub proof fn lemma_spent_is_first_keyed_side(sides: Seq<MarketSideObs>, asset: usize, side: u8)
    ensures
        spent_spec(sides, asset, side) is None <==> forall|k: int|
            0 <= k < sides.len() ==> !(#[trigger] sides[k].asset == asset && sides[k].side == side),
        spent_spec(sides, asset, side) matches Some(x) ==> exists|k: int|
            0 <= k < sides.len() && #[trigger] sides[k].asset == asset && sides[k].side == side
                && sides[k].insurance_domain_spent == x && forall|i: int|
                0 <= i < k ==> !(#[trigger] sides[i].asset == asset && sides[i].side == side),
{
    lemma_find_side(sides, asset, side, 0);
    if let Some(k) = find_side(sides, asset, side, 0) {
        assert(sides[k].asset == asset);
    }
}

} // verus!
