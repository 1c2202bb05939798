//! Funding claimable-value conservation over hand-built observations.
use perp_adversary::driver::{AccountObs, Observation, SystemObs};
use perp_adversary::oracles::{claimable_shortfall, claimable_value, funding_conservation_kind, funding_value_conservation, FundingConservationKind};
use perp_adversary::scenario::Action;

fn obs(accounts: Vec<(u128, i128)>, ext_in_step: u128, ext_out_step: u128) -> Observation {
    Observation {
        step: 0,
        action: Action::Deposit { account: 0, amount: 0 },
        result: Ok(()),
        accounts: accounts
            .into_iter()
            .map(|(capital, pnl)| AccountObs { capital, pnl, ..AccountObs::default() })
            .collect(),
        market_domains: vec![],
        liquidation: None,
        adl: None,
        system: SystemObs::default(),
        ext_in_step,
        ext_out_step,
    }
}

#[test]
fn claimable_value_sums_capital_and_pnl() {
    assert_eq!(claimable_value(&obs(vec![(1_000, -30), (500, 45)], 0, 0)), 1_515);
    assert_eq!(claimable_value(&obs(vec![], 0, 0)), 0);
}

#[test]
fn funding_core_directions() {
    assert_eq!(funding_conservation_kind(100, 150, 50, 0), Ok(()));
    assert_eq!(
        funding_conservation_kind(100, 149, 50, 0),
        Err(FundingConservationKind::ClaimableValueDestroyed)
    );
    assert_eq!(
        funding_conservation_kind(100, 151, 50, 0),
        Err(FundingConservationKind::ClaimableValueCreated)
    );
    assert_eq!(
        funding_conservation_kind(0, 0, u128::MAX, u128::MAX),
        Err(FundingConservationKind::ClaimableValueDestroyed)
    );
    assert_eq!(
        funding_conservation_kind(i128::MAX, 0, 1, 0),
        Err(FundingConservationKind::ClaimableValueDestroyed)
    );
}

#[test]
fn funding_window_details_are_exact() {
    let prev = obs(vec![(1_000, 0), (1_000, 0)], 0, 0);
    let cur = obs(vec![(999, 0), (1_000, -3)], 0, 0);
    let err = funding_value_conservation(&prev, &cur, 0, 0).unwrap_err();
    assert_eq!(
        err.requirement,
        "funding value conservation (req#14 rounding-residue sink; floor/ceil asymmetry wide_math.rs:1441 vs :1435; StockReconciliation dead v16.rs:3019)"
    );
    assert_eq!(
        err.detail,
        "claimable value Σ(capital+pnl) 2000 -> 1996 but net external flow was +0/-0: 4 atoms DESTROYED (funding floor/ceil leak to unattributable vault slack; no req#14 sink)"
    );
    let err = funding_value_conservation(&cur, &prev, 0, 0).unwrap_err();
    assert_eq!(
        err.detail,
        "claimable value Σ(capital+pnl) 1996 -> 2000 but net external flow was +0/-0: value CREATED beyond external inflow (extractive direction)"
    );
    assert!(funding_value_conservation(&cur, &prev, 4, 0).is_ok());
}

#[test]
fn shortfall_over_a_trace() {
    let trace = vec![
        obs(vec![(1_000, 0), (0, 0)], 1_000, 0),
        obs(vec![(1_000, 0), (500, 0)], 500, 0),
        obs(vec![(900, 0), (500, 50)], 0, 0),
        obs(vec![(700, 0), (500, 49)], 0, 200),
    ];
    let (net, m, s) = claimable_shortfall(&trace);
    assert_eq!(net, 1_300);
    assert_eq!(m, 1_249);
    assert_eq!(s, 51);
    assert_eq!(
        funding_conservation_kind(0, m, net as u128, 0),
        Err(FundingConservationKind::ClaimableValueDestroyed)
    );
    assert_eq!(claimable_shortfall(&[]), (0, 0, 0));
}
