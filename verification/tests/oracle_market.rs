//! Market-engine realizability cross-link oracle over hand-built pairings.
use perp_adversary::driver::{AccountObs, DomainObs, EngineDomainObs, MarketSideObs, Observation, SystemObs};
use perp_adversary::oracles::{check_observation_market, cross_link_kind, market_cross_link, CrossLinkKind};
use perp_adversary::scenario::Action;

const SCALE: u128 = 1_000_000_000_000;

fn account_domain(market_id: u64, bound_num: u128) -> DomainObs {
    DomainObs {
        source_claim_market_id: market_id,
        source_claim_bound_num: bound_num,
        source_claim_liened_num: SCALE,
        source_claim_counterparty_liened_num: SCALE,
        source_claim_insurance_liened_num: 0,
        source_lien_effective_reserved: 1,
        source_lien_counterparty_backing_num: SCALE,
        source_lien_insurance_backing_num: 0,
        source_claim_impaired_num: 0,
        source_lien_impaired_effective_reserved: 0,
    }
}

fn market_side(asset: usize, side: u8, positive_claim_bound_num: u128) -> MarketSideObs {
    MarketSideObs {
        asset,
        side,
        market_id: (asset as u64) + 1,
        state: EngineDomainObs {
            positive_claim_bound_num,
            ..EngineDomainObs::default()
        },
        insurance_domain_spent: 0,
    }
}

#[test]
fn bound_below_market_bound_with_matching_id_is_ok() {
    let domains = vec![account_domain(1, 3 * SCALE)];
    let market = vec![market_side(0, 0, 5 * SCALE), market_side(0, 1, 0)];
    assert_eq!(market_cross_link(&domains, &market), Ok(()));
}

#[test]
fn bound_equal_to_market_bound_is_ok() {
    let domains = vec![account_domain(1, 5 * SCALE)];
    let market = vec![market_side(0, 0, 5 * SCALE), market_side(0, 1, 0)];
    assert_eq!(market_cross_link(&domains, &market), Ok(()));
}

#[test]
fn bound_exceeding_market_bound_is_violation() {
    let domains = vec![account_domain(1, 6 * SCALE)];
    let market = vec![market_side(0, 0, 5 * SCALE), market_side(0, 1, 0)];
    let err = market_cross_link(&domains, &market).unwrap_err();
    assert_eq!(err.requirement, "market cross-link (v16.rs:2186)");
    assert!(
        err.detail.contains("6000000000000") && err.detail.contains("5000000000000"),
        "detail should cite the per-account bound and the market bound: {}",
        err.detail
    );
}

#[test]
fn market_id_mismatch_is_violation() {
    let domains = vec![account_domain(99, SCALE)];
    let market = vec![market_side(0, 0, 5 * SCALE), market_side(0, 1, 0)];
    let err = market_cross_link(&domains, &market).unwrap_err();
    assert_eq!(err.requirement, "market cross-link (v16.rs:2177)");
}

#[test]
fn short_side_domain_maps_to_side_1() {
    let domains = vec![DomainObs::default(), account_domain(1, 4 * SCALE)];
    let market = vec![market_side(0, 0, SCALE), market_side(0, 1, 5 * SCALE)];
    assert_eq!(market_cross_link(&domains, &market), Ok(()));
}

#[test]
fn second_asset_domain_maps_to_asset_1() {
    let domains = vec![
        DomainObs::default(),
        DomainObs::default(),
        account_domain(2, 7 * SCALE),
    ];
    let market = vec![
        market_side(0, 0, 0),
        market_side(0, 1, 0),
        market_side(1, 0, 9 * SCALE),
        market_side(1, 1, 0),
    ];
    assert_eq!(market_cross_link(&domains, &market), Ok(()));

    let domains_bad = vec![
        DomainObs::default(),
        DomainObs::default(),
        account_domain(2, 10 * SCALE),
    ];
    let err = market_cross_link(&domains_bad, &market).unwrap_err();
    assert_eq!(err.requirement, "market cross-link (v16.rs:2186)");
}

#[test]
fn numeric_zero_domain_is_skipped() {
    let domains = vec![DomainObs::default()];
    let market = vec![market_side(0, 0, 0), market_side(0, 1, 0)];
    assert_eq!(market_cross_link(&domains, &market), Ok(()));
}

#[test]
fn missing_market_side_for_nonempty_domain_is_violation() {
    let domains = vec![account_domain(1, SCALE)];
    let market: Vec<MarketSideObs> = Vec::new();
    assert!(market_cross_link(&domains, &market).is_err());
}

fn obs_with(domains: Vec<DomainObs>, market_domains: Vec<MarketSideObs>) -> Observation {
    Observation {
        step: 0,
        action: Action::Deposit { account: 0, amount: 0 },
        result: Ok(()),
        accounts: vec![AccountObs {
            capital: 0,
            pnl: 0,
            fee_credits: 0,
            domains,
            quantity_adl_applied_q: 0,
        }],
        market_domains,
        liquidation: None,
        adl: None,
        system: SystemObs::default(),
        ext_in_step: 0,
        ext_out_step: 0,
    }
}

#[test]
fn check_observation_market_passes_when_all_pairings_ok() {
    let obs = obs_with(
        vec![account_domain(1, 3 * SCALE), DomainObs::default()],
        vec![market_side(0, 0, 5 * SCALE), market_side(0, 1, 0)],
    );
    assert_eq!(check_observation_market(&obs), Ok(()));
}

#[test]
fn check_observation_market_flags_offending_account_and_domain() {
    let bad = account_domain(1, 8 * SCALE);
    let obs = obs_with(vec![bad], vec![market_side(0, 0, 5 * SCALE), market_side(0, 1, 0)]);
    let err = check_observation_market(&obs).unwrap_err();
    assert!(err.detail.contains("account 0"), "detail: {}", err.detail);
    assert!(err.detail.contains("domain 0"), "detail: {}", err.detail);
}

// ---- further cases ----

#[test]
fn cross_link_core_kinds() {
    let d = account_domain(1, 3 * SCALE);
    assert_eq!(cross_link_kind(&d, 1, 3 * SCALE), Ok(()));
    assert_eq!(cross_link_kind(&d, 2, 3 * SCALE), Err(CrossLinkKind::MarketIdMismatch));
    assert_eq!(cross_link_kind(&d, 1, 3 * SCALE - 1), Err(CrossLinkKind::BoundExceedsMarket));
    assert_eq!(CrossLinkKind::MarketIdMismatch.requirement(), "market cross-link (v16.rs:2177)");
}

#[test]
fn cross_link_details_are_exact() {
    let market = vec![market_side(0, 0, 5 * SCALE), market_side(0, 1, 0)];
    let err = market_cross_link(&[account_domain(99, SCALE)], &market).unwrap_err();
    assert_eq!(
        err.detail,
        "domain 0 (asset 0, side 0): source_claim_market_id(99) != asset.market_id(1)"
    );
    let err = market_cross_link(&[account_domain(1, 6 * SCALE)], &market).unwrap_err();
    assert_eq!(
        err.detail,
        "domain 0 (asset 0, side 0): source_claim_bound_num(6000000000000) > market positive_claim_bound_num(5000000000000)"
    );
    let err = market_cross_link(&[DomainObs::default(), account_domain(1, SCALE)], &[]).unwrap_err();
    assert_eq!(err.requirement, "market cross-link (v16.rs:2177)");
    assert_eq!(
        err.detail,
        "domain 1 (asset 0, side 1): no observable market-engine source-credit side to pair against; cannot certify the v16.rs:2177/2186 cross-link"
    );
}

#[test]
fn check_observation_market_names_the_second_account() {
    let mut obs = obs_with(
        vec![account_domain(1, 3 * SCALE)],
        vec![market_side(0, 0, 5 * SCALE), market_side(0, 1, 0)],
    );
    obs.accounts.push(AccountObs {
        domains: vec![account_domain(7, SCALE)],
        ..AccountObs::default()
    });
    let err = check_observation_market(&obs).unwrap_err();
    assert_eq!(
        err.detail,
        "account 1, domain 0 (asset 0, side 0): source_claim_market_id(7) != asset.market_id(1)"
    );
}
