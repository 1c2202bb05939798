//! Global quote-value conservation oracle over hand-set vault snapshots.
use perp_adversary::driver::{Observation, SystemObs};
use perp_adversary::oracles::{check_step_value_conservation, value_conservation, value_conservation_kind, ConservationKind};
use perp_adversary::scenario::Action;

fn obs(vault: u128) -> Observation {
    Observation {
        step: 0,
        action: Action::Deposit { account: 0, amount: 0 },
        result: Ok(()),
        accounts: vec![],
        market_domains: vec![],
        liquidation: None,
        adl: None,
        system: SystemObs { vault, ..SystemObs::default() },
        ext_in_step: 0,
        ext_out_step: 0,
    }
}

fn obs_part(vault: u128, c_tot: u128, insurance: u128, backing: u128) -> Observation {
    Observation {
        system: SystemObs {
            vault,
            c_tot,
            insurance,
            backing_provider_earnings: backing,
            ..SystemObs::default()
        },
        ..obs(vault)
    }
}

#[test]
fn internal_step_with_no_external_flow_conserves() {
    let prev = obs(1_000_000);
    let cur = obs(1_000_000);
    assert!(value_conservation(&prev, &cur, 0, 0).is_ok());
}

#[test]
fn deposit_raises_vault_by_exactly_the_inflow() {
    let prev = obs(1_000_000);
    let cur = obs(1_000_500);
    assert!(value_conservation(&prev, &cur, 500, 0).is_ok());
}

#[test]
fn withdrawal_lowers_vault_by_exactly_the_outflow() {
    let prev = obs(1_000_000);
    let cur = obs(999_500);
    assert!(value_conservation(&prev, &cur, 0, 500).is_ok());
}

#[test]
fn simultaneous_in_and_out_net_to_the_vault_delta() {
    let prev = obs(1_000_000);
    let cur = obs(1_000_300);
    assert!(value_conservation(&prev, &cur, 800, 500).is_ok());
}

#[test]
fn zero_vault_zero_flow_conserves() {
    let prev = obs(0);
    let cur = obs(0);
    assert!(value_conservation(&prev, &cur, 0, 0).is_ok());
}

#[test]
fn partition_under_vault_is_accepted() {
    let prev = obs_part(1000, 400, 200, 100);
    let cur = obs_part(1000, 400, 200, 100);
    assert!(value_conservation(&prev, &cur, 0, 0).is_ok());
}

#[test]
fn value_appearing_on_an_internal_step_is_a_violation() {
    let prev = obs(1_000_000);
    let cur = obs(1_000_001);
    let v = value_conservation(&prev, &cur, 0, 0);
    assert!(v.is_err());
    assert_eq!(
        value_conservation_kind(1_000_000, 1_000_001, 0, 0, 0),
        Err(ConservationKind::ValueAppeared)
    );
}

#[test]
fn deposit_that_overcredits_the_vault_is_a_violation() {
    let prev = obs(1_000_000);
    let cur = obs(1_000_600);
    assert_eq!(
        value_conservation_kind(1_000_000, 1_000_600, 500, 0, 0),
        Err(ConservationKind::ValueAppeared)
    );
    assert!(value_conservation(&prev, &cur, 500, 0).is_err());
}

#[test]
fn value_disappearing_on_an_internal_step_is_a_violation() {
    let prev = obs(1_000_000);
    let cur = obs(999_999);
    let v = value_conservation(&prev, &cur, 0, 0);
    assert!(v.is_err());
    assert_eq!(
        value_conservation_kind(1_000_000, 999_999, 0, 0, 0),
        Err(ConservationKind::ValueDisappeared)
    );
}

#[test]
fn withdrawal_that_overdebits_the_vault_is_a_violation() {
    let prev = obs(1_000_000);
    let cur = obs(999_400);
    assert_eq!(
        value_conservation_kind(1_000_000, 999_400, 0, 500, 0),
        Err(ConservationKind::ValueDisappeared)
    );
    assert!(value_conservation(&prev, &cur, 0, 500).is_err());
}

#[test]
fn partition_exceeding_vault_fails_closed() {
    let prev = obs_part(1000, 1000, 0, 0);
    let cur = obs_part(1000, 800, 300, 100);
    assert_eq!(
        value_conservation_kind(1000, 1000, 0, 0, 1200),
        Err(ConservationKind::PartitionExceedsVault)
    );
    assert!(value_conservation(&prev, &cur, 0, 0).is_err());
}

#[test]
fn core_balances_the_equation_exactly() {
    assert!(value_conservation_kind(100, 130, 50, 20, 0).is_ok());
    assert_eq!(
        value_conservation_kind(100, 131, 50, 20, 0),
        Err(ConservationKind::ValueAppeared)
    );
    assert_eq!(
        value_conservation_kind(100, 129, 50, 20, 0),
        Err(ConservationKind::ValueDisappeared)
    );
}

#[test]
fn core_addition_overflow_fails_closed() {
    let r = value_conservation_kind(u128::MAX, u128::MAX, 1, 1, 0);
    assert!(r.is_err());
}

// ---- further cases ----

#[test]
fn conservation_details_are_exact() {
    let err = value_conservation(&obs(1_000_000), &obs(1_000_600), 500, 0).unwrap_err();
    assert_eq!(
        err.requirement,
        "quote-value conservation (req#13; v16.rs:2913 TokenValueFlowProof)"
    );
    assert_eq!(
        err.detail,
        "vault 1000000 -> 1000600 (Δ +600) but net external flow was +500/-0 (net 500): 100 quote atoms APPEARED beyond the external flow. Triage: is this a value store excluded from the model that legitimately grew (c_tot=0, insurance=0, backing_earnings=0), or a genuine MINT?"
    );
    let err = value_conservation(&obs(1_000_000), &obs(999_400), 0, 500).unwrap_err();
    assert_eq!(
        err.detail,
        "vault 1000000 -> 999400 (Δ -600) but net external flow was +0/-500 (net -500): quote atoms DISAPPEARED beyond the external flow. Triage: did value legitimately LEAVE (external payout/fee) unaccounted, or is this a genuine LEAK?"
    );
    let err = value_conservation(&obs_part(1000, 1000, 0, 0), &obs_part(1000, 800, 300, 100), 0, 0).unwrap_err();
    assert_eq!(
        err.requirement,
        "stock reconciliation partition (v16.rs:4590 senior<=vault)"
    );
    assert_eq!(
        err.detail,
        "post-step partition c_tot(800) + insurance(300) + backing_earnings(100) = 1200 EXCEEDS vault(1000): the engine's own senior<=vault invariant (v16.rs:4590) is violated in the observed state, so the conservation measure is untrustworthy"
    );
}

#[test]
fn check_step_takes_the_flows_from_the_current_observation() {
    let prev = obs(1_000);
    let mut cur = obs(1_700);
    cur.ext_in_step = 900;
    cur.ext_out_step = 200;
    assert!(check_step_value_conservation(&prev, &cur).is_ok());
    cur.ext_out_step = 199;
    assert!(check_step_value_conservation(&prev, &cur).is_err());
}

#[test]
fn saturating_partition_still_fails_closed() {
    let cur = obs_part(1000, u128::MAX, 1, 0);
    let err = value_conservation(&obs(1000), &cur, 0, 0).unwrap_err();
    assert!(err.detail.contains(&format!("= {} EXCEEDS", u128::MAX)));
}

#[test]
fn net_flow_is_rendered_as_a_signed_reinterpretation() {
    let err = value_conservation(&obs(0), &obs(0), u128::MAX, 0).unwrap_err();
    assert_eq!(
        err.detail,
        format!(
            "vault 0 -> 0 (Δ -0) but net external flow was +{}/-0 (net -1): quote atoms DISAPPEARED beyond the external flow. Triage: did value legitimately LEAVE (external payout/fee) unaccounted, or is this a genuine LEAK?",
            u128::MAX
        )
    );
    let err = value_conservation(&obs(0), &obs(1u128 << 127), 0, 0).unwrap_err();
    assert!(err.detail.contains(&format!("(Δ +{})", 1u128 << 127)), "{}", err.detail);
}

#[test]
fn planted_one_atom_mint_is_caught() {
    let prev = obs_part(1_000, 600, 100, 0);
    let mut cur = obs_part(1_250, 850, 100, 0);
    cur.ext_in_step = 250;
    assert!(check_step_value_conservation(&prev, &cur).is_ok());
    let mut tampered = cur.clone();
    tampered.system.vault += 1;
    assert!(check_step_value_conservation(&prev, &tampered).is_err());
    assert_eq!(
        value_conservation_kind(1_000, 1_251, 250, 0, 950),
        Err(ConservationKind::ValueAppeared)
    );
}
