//! O1 realizability oracle over hand-built source domains.
use perp_adversary::driver::{AccountObs, DomainObs, Observation, SystemObs};
use perp_adversary::oracles::{check_observation, realizability, realizability_kind, ViolationKind};
use perp_adversary::scenario::Action;

const SCALE: u128 = 1_000_000_000_000;

/// A fully-backed, well-formed holding: effective reserved == liened amount,
/// backing-num == effective * SCALE, face decomposes into counterparty side.
fn fully_backed(effective: u128) -> DomainObs {
    let backing_num = effective * SCALE;
    let face_num = backing_num;
    DomainObs {
        source_claim_market_id: 1,
        source_claim_bound_num: face_num,
        source_claim_liened_num: face_num,
        source_claim_counterparty_liened_num: face_num,
        source_claim_insurance_liened_num: 0,
        source_lien_effective_reserved: effective,
        source_lien_counterparty_backing_num: backing_num,
        source_lien_insurance_backing_num: 0,
        source_claim_impaired_num: 0,
        source_lien_impaired_effective_reserved: 0,
    }
}

#[test]
fn empty_domain_is_realizable() {
    assert_eq!(realizability(&DomainObs::default()), Ok(()));
}

#[test]
fn fully_backed_domain_is_realizable() {
    assert_eq!(realizability(&fully_backed(5)), Ok(()));
}

#[test]
fn haircut_domain_with_face_above_backing_is_realizable() {
    let face_num = 7 * SCALE;
    let effective = 7;
    let d = DomainObs {
        source_claim_market_id: 1,
        source_claim_bound_num: 9 * SCALE,
        source_claim_liened_num: face_num,
        source_claim_counterparty_liened_num: face_num,
        source_claim_insurance_liened_num: 0,
        source_lien_effective_reserved: effective,
        source_lien_counterparty_backing_num: effective * SCALE,
        source_lien_insurance_backing_num: 0,
        source_claim_impaired_num: 0,
        source_lien_impaired_effective_reserved: 0,
    };
    assert_eq!(realizability(&d), Ok(()));
}

#[test]
fn insurance_split_is_realizable() {
    let cp_face = 3 * SCALE;
    let ins_face = 2 * SCALE;
    let d = DomainObs {
        source_claim_market_id: 1,
        source_claim_bound_num: cp_face + ins_face,
        source_claim_liened_num: cp_face + ins_face,
        source_claim_counterparty_liened_num: cp_face,
        source_claim_insurance_liened_num: ins_face,
        source_lien_effective_reserved: 5,
        source_lien_counterparty_backing_num: 3 * SCALE,
        source_lien_insurance_backing_num: 2 * SCALE,
        source_claim_impaired_num: 0,
        source_lien_impaired_effective_reserved: 0,
    };
    assert_eq!(realizability(&d), Ok(()));
}

#[test]
fn impaired_with_reserve_is_realizable() {
    let mut d = fully_backed(4);
    d.source_claim_bound_num = 6 * SCALE;
    d.source_claim_impaired_num = 2 * SCALE;
    d.source_lien_impaired_effective_reserved = 2;
    assert_eq!(realizability(&d), Ok(()));
}

#[test]
fn effective_reserved_exceeding_realizable_backing_is_violation() {
    let mut d = fully_backed(5);
    d.source_lien_effective_reserved = 6;
    d.source_lien_counterparty_backing_num = 6 * SCALE;
    let err = realizability(&d).unwrap_err();
    assert_eq!(err.requirement, "R2");
}

#[test]
fn face_decomposition_mismatch_is_violation() {
    let mut d = fully_backed(5);
    d.source_claim_counterparty_liened_num = 4 * SCALE;
    realizability(&d).unwrap_err();
}

#[test]
fn locked_plus_impaired_exceeding_bound_is_violation() {
    let mut d = fully_backed(5);
    d.source_claim_impaired_num = SCALE;
    realizability(&d).unwrap_err();
}

#[test]
fn backing_num_not_matching_effective_is_violation() {
    let mut d = fully_backed(5);
    d.source_lien_counterparty_backing_num = 4 * SCALE;
    realizability(&d).unwrap_err();
}

#[test]
fn backing_num_not_atom_aligned_is_violation() {
    let mut d = fully_backed(5);
    d.source_lien_counterparty_backing_num = 5 * SCALE + 1;
    realizability(&d).unwrap_err();
}

#[test]
fn impaired_reserve_without_impaired_face_is_violation() {
    let mut d = fully_backed(5);
    d.source_lien_impaired_effective_reserved = 1;
    realizability(&d).unwrap_err();
}

fn obs_with(domains: Vec<DomainObs>) -> Observation {
    Observation {
        step: 0,
        action: Action::Deposit { account: 0, amount: 0 },
        result: Ok(()),
        accounts: vec![AccountObs {
            capital: 0,
            pnl: 0,
            fee_credits: 0,
            domains,
            quantity_adl_applied_q: 0,
        }],
        market_domains: Vec::new(),
        liquidation: None,
        adl: None,
        system: SystemObs::default(),
        ext_in_step: 0,
        ext_out_step: 0,
    }
}

#[test]
fn check_observation_passes_when_all_domains_realizable() {
    let obs = obs_with(vec![fully_backed(5), DomainObs::default(), fully_backed(2)]);
    assert_eq!(check_observation(&obs), Ok(()));
}

#[test]
fn check_observation_flags_offending_domain_with_location() {
    let mut bad = fully_backed(5);
    bad.source_lien_effective_reserved = 99;
    let obs = obs_with(vec![fully_backed(2), bad]);
    let err = check_observation(&obs).unwrap_err();
    assert!(err.detail.contains("account 0"), "detail: {}", err.detail);
    assert!(err.detail.contains("domain 1"), "detail: {}", err.detail);
}

// ---- further cases ----

#[test]
fn each_violation_kind_and_requirement() {
    let mut d = fully_backed(5);
    d.source_claim_counterparty_liened_num = 4 * SCALE;
    assert_eq!(realizability_kind(&d), Err(ViolationKind::FaceDecomposition));
    assert_eq!(realizability(&d).unwrap_err().requirement, "R2");

    let mut d = fully_backed(5);
    d.source_claim_impaired_num = SCALE;
    assert_eq!(realizability_kind(&d), Err(ViolationKind::LockedExceedsBound));
    assert_eq!(realizability(&d).unwrap_err().requirement, "R17");

    let mut d = fully_backed(5);
    d.source_lien_counterparty_backing_num = 5 * SCALE + 1;
    assert_eq!(realizability_kind(&d), Err(ViolationKind::BackingNotAtomAligned));

    let mut d = fully_backed(5);
    d.source_lien_counterparty_backing_num = 4 * SCALE;
    assert_eq!(realizability_kind(&d), Err(ViolationKind::ReservationInexact));
    assert_eq!(realizability(&d).unwrap_err().requirement, "R16");

    let mut d = fully_backed(5);
    d.source_lien_impaired_effective_reserved = 1;
    assert_eq!(realizability_kind(&d), Err(ViolationKind::ImpairedReserveWithoutFace));
    assert_eq!(ViolationKind::ImpairedReserveWithoutFace.requirement(), "R16");
}

#[test]
fn realizability_cap_rounds_the_face_up() {
    // face = 5 * SCALE + 1 => ceil(face / SCALE) = 6, so 6 atoms may be reserved.
    let mut d = fully_backed(6);
    d.source_claim_bound_num = 5 * SCALE + 1;
    d.source_claim_liened_num = 5 * SCALE + 1;
    d.source_claim_counterparty_liened_num = 5 * SCALE + 1;
    assert_eq!(realizability(&d), Ok(()));
    d.source_lien_effective_reserved = 7;
    d.source_lien_counterparty_backing_num = 7 * SCALE;
    let err = realizability(&d).unwrap_err();
    assert_eq!(
        err.detail,
        "effective_reserved(7) exceeds realizable backing ceil(face/SCALE)=6"
    );
}

#[test]
fn face_sum_overflow_fails_closed() {
    let mut d = DomainObs::default();
    d.source_claim_counterparty_liened_num = u128::MAX;
    d.source_claim_insurance_liened_num = 1;
    d.source_claim_liened_num = 0;
    assert_eq!(realizability_kind(&d), Err(ViolationKind::FaceDecomposition));
}

#[test]
fn reservation_overflow_fails_closed() {
    // eff * SCALE overflows u128: the reservation cannot be certified.
    let eff = u128::MAX / SCALE + 1;
    let mut d = DomainObs::default();
    d.source_claim_bound_num = u128::MAX;
    d.source_claim_liened_num = u128::MAX;
    d.source_claim_counterparty_liened_num = u128::MAX;
    d.source_lien_effective_reserved = eff;
    assert_eq!(realizability_kind(&d), Err(ViolationKind::ReservationInexact));
}

#[test]
fn detail_of_each_kind() {
    let mut d = fully_backed(5);
    d.source_claim_counterparty_liened_num = 4 * SCALE;
    assert_eq!(
        realizability(&d).unwrap_err().detail,
        "counterparty_face(4000000000000) + insurance_face(0) != face_locked(5000000000000)"
    );
    let mut d = fully_backed(5);
    d.source_lien_impaired_effective_reserved = 3;
    assert_eq!(
        realizability(&d).unwrap_err().detail,
        "impaired_effective_reserved(3) != 0 but impaired_face == 0"
    );
}

#[test]
fn check_observation_reports_full_detail() {
    let mut bad = fully_backed(5);
    bad.source_lien_effective_reserved = 99;
    bad.source_lien_counterparty_backing_num = 99 * SCALE;
    let obs = obs_with(vec![fully_backed(2), bad]);
    let err = check_observation(&obs).unwrap_err();
    assert_eq!(err.requirement, "R2");
    assert_eq!(
        err.detail,
        "account 0, domain 1: effective_reserved(99) exceeds realizable backing ceil(face/SCALE)=5"
    );
}
