//! Campaign builders and trace bookkeeping.
use perp_adversary::driver::{
    adl_campaign, close_deadline, convert_realization_campaign, earned_lien_campaign,
    funded_liquidation_campaign, funding_leak_campaign, lien_creating_campaign,
    liquidation_campaign, opposite_side, scaled_claim, scenario_needs_funding, seed_claim_totals,
    side_from_u8, source_domain, underwater_seed_extra, underwater_seed_state, ClaimTotals,
    SystemObs, TraceRecorder, UnderwaterState, ACTIVATION_PRICE, POS_SCALE,
};
use perp_adversary::driver::{push_market_sides, system_stock_totals, EngineDomainObs, SlotStocks};
use perp_adversary::oracles::{check_observation, claimable_shortfall};
use perp_adversary::scenario::{Action, Side};

#[test]
fn lien_creating_campaign_shape() {
    let s = lien_creating_campaign();
    assert_eq!((s.n_markets, s.n_accounts), (1, 2));
    assert_eq!(
        s.actions,
        vec![
            Action::Deposit { account: 1, amount: 1_000_000 },
            Action::SeedSourceClaim { account: 0, asset: 0, claim: 100 },
            Action::Trade { long: 0, short: 1, asset: 0, size_q: 1_000_000, exec_price: 100, fee_bps: 0 },
        ]
    );
    assert_eq!(s.validate(), Ok(()));
    assert!(!scenario_needs_funding(&s));
}

#[test]
fn funding_leak_campaign_cranks_both_legs_each_slot() {
    let s = funding_leak_campaign(100 * POS_SCALE + 1, 3);
    assert_eq!(s.actions.len(), 4 + 6);
    assert_eq!(
        s.actions[2],
        Action::Trade { long: 0, short: 1, asset: 0, size_q: 100_000_001, exec_price: ACTIVATION_PRICE, fee_bps: 0 }
    );
    assert_eq!(
        s.actions[3],
        Action::ProviderPostClaim { asset: 0, side: 1, claim: 1_000_000_000 }
    );
    assert_eq!(
        s.actions[9],
        Action::AccrueFunding { account: 1, asset: 0, now_slot: 3, effective_price: 100, funding_rate_e9: -9_999 }
    );
    assert_eq!(
        s.actions[6],
        Action::AccrueFunding { account: 0, asset: 0, now_slot: 2, effective_price: 100, funding_rate_e9: -9_999 }
    );
    assert!(scenario_needs_funding(&s));
    assert_eq!(s.validate(), Ok(()));
    assert_eq!(funding_leak_campaign(1, 0).actions.len(), 4);
    assert!(!scenario_needs_funding(&funding_leak_campaign(1, 0)));
}

#[test]
fn earned_and_convert_campaigns_shape() {
    let e = earned_lien_campaign();
    assert_eq!(e.actions.len(), 4 + 12 + 1);
    assert_eq!(
        e.actions[16],
        Action::Trade { long: 0, short: 1, asset: 0, size_q: POS_SCALE, exec_price: 100, fee_bps: 0 }
    );
    assert_eq!(e.validate(), Ok(()));
    let c = convert_realization_campaign();
    assert_eq!(c.actions.len(), 4 + 12 + 5);
    assert_eq!(c.actions[20], Action::Withdraw { account: 0, amount: 300 });
    assert_eq!(
        c.actions[18],
        Action::Crank { account: 0, asset: 0, now_slot: 7, effective_price: 100 }
    );
    assert_eq!(c.validate(), Ok(()));
}

#[test]
fn liquidation_and_adl_campaigns_shape() {
    assert_eq!(
        liquidation_campaign().actions,
        vec![
            Action::SeedUnderwaterPosition { account: 0, asset: 0 },
            Action::Liquidate { account: 0, asset: 0, close_q: 1_000_000 },
        ]
    );
    assert_eq!(
        funded_liquidation_campaign().actions[0],
        Action::SeedUnderwaterPositionFunded { account: 0, asset: 0, domain_budget: 5 }
    );
    assert_eq!(
        adl_campaign().actions[1],
        Action::ApplyAdl { account: 0, asset: 0, bankrupt_side: 0, close_q: 1_000_000 }
    );
}

#[test]
fn step_arithmetic() {
    assert_eq!(source_domain(3, 1), 7);
    assert_eq!(scaled_claim(100), Some(100_000_000_000_000));
    assert_eq!(scaled_claim(u128::MAX / 1_000_000), None);
    assert_eq!(underwater_seed_extra(5), Some(55));
    assert_eq!(underwater_seed_extra(u128::MAX), None);
    assert_eq!(close_deadline(7), 17);
    assert_eq!(close_deadline(u64::MAX - 3), u64::MAX);
    assert_eq!(side_from_u8(0), Side::Long);
    assert_eq!(side_from_u8(7), Side::Short);
    assert_eq!(opposite_side(Side::Long), Side::Short);
    let cur = ClaimTotals { pnl: -5, bound_num: u128::MAX - 1, pnl_pos_tot: 1, pnl_pos_bound_tot_num: 0, pnl_pos_bound_tot: 2 };
    assert_eq!(
        seed_claim_totals(cur, 100, 100_000_000_000_000),
        Some(ClaimTotals {
            pnl: 95,
            bound_num: u128::MAX,
            pnl_pos_tot: 101,
            pnl_pos_bound_tot_num: 100_000_000_000_000,
            pnl_pos_bound_tot: 102,
        })
    );
    assert_eq!(seed_claim_totals(cur, u128::MAX, 0), None);
    let st = UnderwaterState { vault: 10, insurance: u128::MAX, negative_pnl_account_count: 0, pnl: i128::MIN + 2 };
    assert_eq!(
        underwater_seed_state(st, 55),
        UnderwaterState { vault: 65, insurance: u128::MAX, negative_pnl_account_count: 1, pnl: i128::MIN }
    );
}

#[test]
fn recorder_tracks_external_flows() {
    let mut rec = TraceRecorder::new(2);
    let steps = [
        (Action::Deposit { account: 0, amount: 1_000 }, true),
        (Action::Withdraw { account: 0, amount: 400 }, true),
        (Action::Withdraw { account: 1, amount: 7 }, false),
        (Action::SeedUnderwaterPositionFunded { account: 1, asset: 0, domain_budget: 5 }, true),
        (Action::MovePrice { asset: 0, now_slot: 1, effective_price: 100 }, true),
    ];
    for (a, ok) in steps {
        assert!(rec.can_record(a, ok));
        let result = if ok { Ok(()) } else { Err("LockActive".to_string()) };
        rec.record(a, result, vec![], vec![], None, None, SystemObs::default());
    }
    let t = rec.finish();
    assert_eq!(t.external_in, vec![1_000, 55]);
    assert_eq!(t.external_out, vec![400, 0]);
    let ins: Vec<u128> = t.observations.iter().map(|o| o.ext_in_step).collect();
    let outs: Vec<u128> = t.observations.iter().map(|o| o.ext_out_step).collect();
    assert_eq!(ins, vec![1_000, 0, 0, 55, 0]);
    assert_eq!(outs, vec![0, 400, 0, 0, 0]);
    let steps: Vec<usize> = t.observations.iter().map(|o| o.step).collect();
    assert_eq!(steps, vec![0, 1, 2, 3, 4]);
    assert!(t.observations[2].result.is_err());
    assert_eq!(claimable_shortfall(&t.observations), (655, 0, 655));
    assert!(check_observation(&t.observations[0]).is_ok());
}

#[test]
fn recorder_refuses_an_overflowing_ledger_total() {
    let mut rec = TraceRecorder::new(2);
    rec.record(Action::Deposit { account: 0, amount: u128::MAX }, Ok(()), vec![], vec![], None, None, SystemObs::default());
    assert!(!rec.can_record(Action::Deposit { account: 1, amount: 1 }, true));
    assert!(rec.can_record(Action::Deposit { account: 1, amount: 1 }, false));
    assert!(rec.can_record(Action::Deposit { account: 0, amount: 1 }, true));
    assert!(!rec.can_record(Action::Deposit { account: 2, amount: 1 }, true));
}

#[test]
fn system_stock_totals_saturate_per_side() {
    let slots = [
        SlotStocks { backing_earnings_long: 3, backing_earnings_short: 4, explicit_loss_long: 0, explicit_loss_short: 9 },
        SlotStocks { backing_earnings_long: 10, backing_earnings_short: 0, explicit_loss_long: u128::MAX, explicit_loss_short: 1 },
    ];
    assert_eq!(system_stock_totals(&slots), (17, u128::MAX));
    assert_eq!(system_stock_totals(&[]), (0, 0));
}

#[test]
fn market_sides_are_long_then_short() {
    let mut out = Vec::new();
    let long = EngineDomainObs { positive_claim_bound_num: 5, ..EngineDomainObs::default() };
    push_market_sides(&mut out, 3, 4, (long, 7), (EngineDomainObs::default(), 8));
    assert_eq!(out.len(), 2);
    assert_eq!((out[0].asset, out[0].side, out[0].market_id, out[0].insurance_domain_spent), (3, 0, 4, 7));
    assert_eq!(out[0].state.positive_claim_bound_num, 5);
    assert_eq!((out[1].asset, out[1].side, out[1].insurance_domain_spent), (3, 1, 8));
}
