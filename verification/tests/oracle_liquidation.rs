//! Liquidation insurance-domain isolation oracle over hand-built step pairs.
use perp_adversary::driver::{AccountObs, EngineDomainObs, LiquidationObs, MarketSideObs, Observation, SystemObs};
use perp_adversary::oracles::{check_step_insurance_isolation, isolation_kind, liquidation_insurance_isolation, IsolationKind};
use perp_adversary::scenario::Action;

fn side(asset: usize, side: u8, insurance_domain_spent: u128) -> MarketSideObs {
    MarketSideObs {
        asset,
        side,
        market_id: (asset as u64) + 1,
        state: EngineDomainObs::default(),
        insurance_domain_spent,
    }
}

fn obs(market_domains: Vec<MarketSideObs>, liq: Option<(u8, LiquidationObs)>) -> Observation {
    let (action, liquidation) = match liq {
        Some((asset, l)) => (
            Action::Liquidate { account: 0, asset, close_q: 1_000_000 },
            Some(l),
        ),
        None => (Action::Deposit { account: 0, amount: 0 }, None),
    };
    Observation {
        step: 0,
        action,
        result: Ok(()),
        accounts: vec![AccountObs::default()],
        market_domains,
        liquidation,
        adl: None,
        system: SystemObs::default(),
        ext_in_step: 0,
        ext_out_step: 0,
    }
}

fn liq(insurance_used: u128) -> LiquidationObs {
    LiquidationObs {
        closed_q: 1_000_000,
        insurance_used,
        residual_booked: 0,
        explicit_loss: 0,
        fee_charged: 0,
    }
}

#[test]
fn no_liquidation_step_is_vacuously_ok() {
    let prev = obs(vec![side(0, 0, 0), side(0, 1, 0)], None);
    let cur = obs(vec![side(0, 0, 9), side(0, 1, 9)], None);
    assert_eq!(liquidation_insurance_isolation(&prev, &cur), Ok(()));
}

#[test]
fn liquidation_with_zero_insurance_and_no_spend_is_ok() {
    let prev = obs(vec![side(0, 0, 0), side(0, 1, 0)], None);
    let cur = obs(vec![side(0, 0, 0), side(0, 1, 0)], Some((0, liq(0))));
    assert_eq!(liquidation_insurance_isolation(&prev, &cur), Ok(()));
}

#[test]
fn liquidation_spending_insurance_on_liquidated_domain_only_is_ok() {
    let prev = obs(vec![side(0, 0, 0), side(0, 1, 0)], None);
    let cur = obs(vec![side(0, 0, 0), side(0, 1, 5)], Some((0, liq(5))));
    assert_eq!(liquidation_insurance_isolation(&prev, &cur), Ok(()));
}

#[test]
fn liquidation_spend_on_long_side_of_liquidated_asset_is_ok() {
    let prev = obs(vec![side(0, 0, 0), side(0, 1, 0), side(1, 0, 0), side(1, 1, 0)], None);
    let cur = obs(
        vec![side(0, 0, 3), side(0, 1, 0), side(1, 0, 0), side(1, 1, 0)],
        Some((0, liq(3))),
    );
    assert_eq!(liquidation_insurance_isolation(&prev, &cur), Ok(()));
}

#[test]
fn pre_existing_spend_on_another_domain_unchanged_is_ok() {
    let prev = obs(vec![side(0, 0, 0), side(0, 1, 0), side(1, 0, 7), side(1, 1, 0)], None);
    let cur = obs(
        vec![side(0, 0, 0), side(0, 1, 4), side(1, 0, 7), side(1, 1, 0)],
        Some((0, liq(4))),
    );
    assert_eq!(liquidation_insurance_isolation(&prev, &cur), Ok(()));
}

#[test]
fn cross_domain_drain_is_violation() {
    let prev = obs(vec![side(0, 0, 0), side(0, 1, 0), side(1, 0, 0), side(1, 1, 0)], None);
    let cur = obs(
        vec![side(0, 0, 0), side(0, 1, 5), side(1, 0, 2), side(1, 1, 0)],
        Some((0, liq(5))),
    );
    let err = liquidation_insurance_isolation(&prev, &cur).unwrap_err();
    assert!(
        err.detail.contains("asset 1"),
        "detail should name the drained foreign domain: {}",
        err.detail
    );
}

#[test]
fn insurance_used_exceeding_liquidated_domain_spend_is_violation() {
    let prev = obs(vec![side(0, 0, 0), side(0, 1, 0)], None);
    let cur = obs(vec![side(0, 0, 0), side(0, 1, 3)], Some((0, liq(5))));
    liquidation_insurance_isolation(&prev, &cur).unwrap_err();
}

#[test]
fn insurance_used_less_than_total_spend_is_violation() {
    let prev = obs(vec![side(0, 0, 0), side(0, 1, 0)], None);
    let cur = obs(vec![side(0, 0, 0), side(0, 1, 5)], Some((0, liq(3))));
    liquidation_insurance_isolation(&prev, &cur).unwrap_err();
}

#[test]
fn spend_going_backward_is_violation() {
    let prev = obs(vec![side(0, 0, 0), side(0, 1, 9)], None);
    let cur = obs(vec![side(0, 0, 0), side(0, 1, 4)], Some((0, liq(0))));
    liquidation_insurance_isolation(&prev, &cur).unwrap_err();
}

#[test]
fn missing_prev_side_is_fail_closed() {
    let prev = obs(vec![side(0, 0, 0)], None);
    let cur = obs(vec![side(0, 0, 0), side(0, 1, 5)], Some((0, liq(5))));
    liquidation_insurance_isolation(&prev, &cur).unwrap_err();
}

// ---- further cases ----

#[test]
fn isolation_core_kinds_and_sides() {
    let prev = vec![side(0, 0, 0), side(0, 1, 9), side(1, 0, 0)];
    assert_eq!(
        isolation_kind(&prev, &[side(0, 0, 0), side(0, 1, 4)], 0, 0),
        Err((IsolationKind::SpendNotMonotone, 0, 1))
    );
    assert_eq!(
        isolation_kind(&prev, &[side(1, 0, 2)], 0, 0),
        Err((IsolationKind::CrossDomainDrain, 1, 0))
    );
    assert_eq!(
        isolation_kind(&prev, &[side(0, 1, 12)], 0, 2),
        Err((IsolationKind::InsuranceSpendUnaccounted, 0, 0))
    );
    assert_eq!(isolation_kind(&prev, &[side(0, 1, 12)], 0, 3), Ok(()));
    assert_eq!(
        isolation_kind(&prev, &[side(2, 0, 0)], 0, 0),
        Err((IsolationKind::SpendNotMonotone, 2, 0))
    );
}

#[test]
fn isolation_details_are_exact() {
    let prev = obs(vec![side(0, 0, 0), side(0, 1, 0), side(1, 0, 0)], None);
    let cur = obs(vec![side(0, 0, 0), side(0, 1, 5), side(1, 0, 2)], Some((0, liq(5))));
    let err = liquidation_insurance_isolation(&prev, &cur).unwrap_err();
    assert_eq!(err.requirement, "insurance isolation (v16.rs:5955)");
    assert_eq!(
        err.detail,
        "asset 1, side 0: insurance_domain_spent increased while liquidating asset 0 — a cross-domain insurance drain (v16.rs:5955 charges only the liquidated asset's bankruptcy domain)"
    );
    let cur = obs(vec![side(0, 0, 0), side(0, 1, 3), side(1, 0, 0)], Some((0, liq(5))));
    let err = check_step_insurance_isolation(&prev, &cur).unwrap_err();
    assert_eq!(err.requirement, "insurance isolation (v16.rs:5980)");
    assert_eq!(
        err.detail,
        "liquidated asset 0: total insurance_domain_spent increase across observed domains does not equal the outcome's insurance_used(5) (v16.rs:5980 increments the liquidated domain by exactly insurance_used)"
    );
}

#[test]
fn liquidation_outcome_on_a_non_liquidate_step_fails_closed() {
    let prev = obs(vec![side(0, 0, 0)], None);
    let mut cur = obs(vec![side(0, 0, 0)], None);
    cur.liquidation = Some(liq(0));
    let err = liquidation_insurance_isolation(&prev, &cur).unwrap_err();
    assert_eq!(err.requirement, "insurance isolation (v16.rs:5955)");
    assert_eq!(
        err.detail,
        "liquidation outcome present on a non-Liquidate step; cannot identify the liquidated asset to certify isolation"
    );
}
