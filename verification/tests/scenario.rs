//! Structural validation of scenarios.
use perp_adversary::scenario::{Action, Scenario, ScenarioError};

fn scenario(actions: Vec<Action>) -> Scenario {
    Scenario { n_markets: 1, n_accounts: 2, actions }
}

#[test]
fn well_formed_scenario_validates() {
    let s = scenario(vec![
        Action::Deposit { account: 0, amount: 1_000 },
        Action::Trade { long: 0, short: 1, asset: 0, size_q: 10, exec_price: 100, fee_bps: 0 },
        Action::MovePrice { asset: 0, now_slot: 1, effective_price: 150 },
        Action::Withdraw { account: 0, amount: 500 },
        Action::SeedFinalizedClose { account: 1, asset: 0, bankrupt_side: 1 },
    ]);
    assert_eq!(s.validate(), Ok(()));
}

#[test]
fn each_structural_fault_is_rejected_at_its_step() {
    let s = scenario(vec![
        Action::Deposit { account: 0, amount: 1 },
        Action::Withdraw { account: 2, amount: 1 },
    ]);
    let e = s.validate().unwrap_err();
    assert_eq!(e, ScenarioError::AccountOutOfRange { step: 1, account: 2 });
    assert_eq!(e.message(), "step 1: account index 2 is out of range");

    let e = scenario(vec![Action::Liquidate { account: 0, asset: 1, close_q: 1 }]).validate().unwrap_err();
    assert_eq!(e, ScenarioError::AssetOutOfRange { step: 0, asset: 1 });
    assert_eq!(e.message(), "step 0: asset index 1 is out of range");

    let e = scenario(vec![Action::Trade { long: 1, short: 1, asset: 0, size_q: 1, exec_price: 1, fee_bps: 0 }])
        .validate()
        .unwrap_err();
    assert_eq!(e, ScenarioError::SelfTrade { step: 0, account: 1 });
    assert_eq!(e.message(), "step 0: trade legs must be distinct accounts (both are 1)");

    let e = scenario(vec![Action::ApplyAdl { account: 0, asset: 0, bankrupt_side: 2, close_q: 1 }])
        .validate()
        .unwrap_err();
    assert_eq!(e, ScenarioError::SideOutOfRange { step: 0, side: 2 });
    assert_eq!(e.message(), "step 0: side 2 is neither 0 (long) nor 1 (short)");
}

#[test]
fn trade_short_leg_out_of_range_is_named() {
    let e = scenario(vec![Action::Trade { long: 0, short: 9, asset: 0, size_q: 1, exec_price: 1, fee_bps: 0 }])
        .validate()
        .unwrap_err();
    assert_eq!(e, ScenarioError::AccountOutOfRange { step: 0, account: 9 });
}
