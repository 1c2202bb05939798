//! O1 — source-domain realizability of one account's source domain.
//!
//! With `SCALE = 1e12`, `face = source_claim_liened_num`,
//! `cp_face = source_claim_counterparty_liened_num`,
//! `ins_face = source_claim_insurance_liened_num`, `bound = source_claim_bound_num`,
//! `imp_face = source_claim_impaired_num`, `eff = source_lien_effective_reserved`,
//! `cp_back = source_lien_counterparty_backing_num`,
//! `ins_back = source_lien_insurance_backing_num` and
//! `imp_eff = source_lien_impaired_effective_reserved`, a realizable domain has:
//!
//! 1. `cp_face + ins_face == face`
//! 2. `face + imp_face <= bound`
//! 3. `eff <= ceil(face / SCALE)` (the realizability cap)
//! 4. `cp_back % SCALE == 0 && ins_back % SCALE == 0`
//! 5. `cp_back + ins_back == eff * SCALE`
//! 6. `imp_eff != 0 ==> imp_face != 0`
use vstd::prelude::*;
use crate::driver::{AccountObs, DomainObs, Observation};
use crate::oracles::{Violation, SCALE};
use crate::text::{decimal, push_decimal};

verus! {

/// Which source-domain relationship was broken.
#[derive(Clone, Copy, Debug, PartialEq, Eq, Structural)]
pub enum ViolationKind {
    /// (1) `cp_face + ins_face != face` — backing-face decomposition.
    FaceDecomposition,
    /// (2) `face + imp_face > bound` — locked claim exceeds the claim bound.
    LockedExceedsBound,
    /// (3) `eff > ceil(face / SCALE)` — the realizability cap.
    EffectiveExceedsBacking,
    /// (4) backing-num not a multiple of `SCALE`.
    BackingNotAtomAligned,
    /// (5) `cp_back + ins_back != eff * SCALE` — reservation inexact.
    ReservationInexact,
    /// (6) `imp_eff != 0 && imp_face == 0` — impaired reserve without face.
    ImpairedReserveWithoutFace,
}

/// The requirement id each kind breaks.
pub open spec fn violation_requirement(kind: ViolationKind) -> Seq<char> {
    match kind {
        ViolationKind::FaceDecomposition => "R2"@,
        ViolationKind::EffectiveExceedsBacking => "R2"@,
        ViolationKind::BackingNotAtomAligned => "R2"@,
        ViolationKind::LockedExceedsBound => "R17"@,
        ViolationKind::ReservationInexact => "R16"@,
        ViolationKind::ImpairedReserveWithoutFace => "R16"@,
    }
}

impl ViolationKind {
    /// The spec requirement id whose realizability guarantee this breaks.
    pub fn requirement(self) -> (r: &'static str)
        ensures
            r@ == violation_requirement(self),
    {
        match self {
            ViolationKind::FaceDecomposition => "R2",
            ViolationKind::EffectiveExceedsBacking => "R2",
            ViolationKind::BackingNotAtomAligned => "R2",
            ViolationKind::LockedExceedsBound => "R17",
            ViolationKind::ReservationInexact => "R16",
            ViolationKind::ImpairedReserveWithoutFace => "R16",
        }
    }
}

/// `ceil(n / SCALE)`.
pub open spec fn ceil_scale(n: int) -> int {
    if n % (SCALE as int) == 0 {
        n / (SCALE as int)
    } else {
        n / (SCALE as int) + 1
    }
}

/// `ceil(bound_num / SCALE)`, exact for every `u128`.
fn amount_from_bound_num(bound_num: u128) -> (r: u128)
    ensures
        r as int == ceil_scale(bound_num as int),
{
    let whole = bound_num / SCALE;
    if bound_num.is_multiple_of(SCALE) {
        whole
    } else {
        whole + 1
    }
}

/// The O1 verdict on one domain: the first broken relationship in the order
/// (1)..(6), over exact integers, where (5) also fails when either side of the
/// equation does not fit in a `u128`.
pub open spec fn realizability_spec(d: DomainObs) -> Result<(), ViolationKind> {
    let face = d.source_claim_liened_num as int;
    let cp_face = d.source_claim_counterparty_liened_num as int;
    let ins_face = d.source_claim_insurance_liened_num as int;
    let bound = d.source_claim_bound_num as int;
    let imp_face = d.source_claim_impaired_num as int;
    let eff = d.source_lien_effective_reserved as int;
    let cp_back = d.source_lien_counterparty_backing_num as int;
    let ins_back = d.source_lien_insurance_backing_num as int;
    let imp_eff = d.source_lien_impaired_effective_reserved as int;
    if cp_face + ins_face != face {
        Err(ViolationKind::FaceDecomposition)
    } else if face + imp_face > bound {
        Err(ViolationKind::LockedExceedsBound)
    } else if eff > ceil_scale(face) {
        Err(ViolationKind::EffectiveExceedsBacking)
    } else if cp_back % (SCALE as int) != 0 || ins_back % (SCALE as int) != 0 {
        Err(ViolationKind::BackingNotAtomAligned)
    } else if cp_back + ins_back > u128::MAX || eff * (SCALE as int) > u128::MAX || cp_back
        + ins_back != eff * (SCALE as int) {
        Err(ViolationKind::ReservationInexact)
    } else if imp_eff != 0 && imp_face == 0 {
        Err(ViolationKind::ImpairedReserveWithoutFace)
    } else {
        Ok(())
    }
}

/// O1 arithmetic core: `Ok(())` for a realizable domain, else the first broken
/// relationship.
pub fn realizability_kind(d: &DomainObs) -> (r: Result<(), ViolationKind>)
    ensures
        r == realizability_spec(*d),
        r is Ok ==> (d.source_claim_counterparty_liened_num + d.source_claim_insurance_liened_num
            == d.source_claim_liened_num
            && d.source_claim_liened_num + d.source_claim_impaired_num <= d.source_claim_bound_num
            && d.source_lien_effective_reserved * (SCALE as int) < d.source_claim_liened_num + SCALE
            && d.source_lien_counterparty_backing_num % SCALE == 0
            && d.source_lien_insurance_backing_num % SCALE == 0
            && d.source_lien_counterparty_backing_num + d.source_lien_insurance_backing_num
            == d.source_lien_effective_reserved * (SCALE as int)
            && (d.source_lien_impaired_effective_reserved != 0 ==> d.source_claim_impaired_num != 0)),
        (d.source_claim_counterparty_liened_num + d.source_claim_insurance_liened_num
            == d.source_claim_liened_num
            && d.source_claim_liened_num + d.source_claim_impaired_num <= d.source_claim_bound_num
            && d.source_lien_effective_reserved * (SCALE as int) < d.source_claim_liened_num + SCALE
            && d.source_lien_counterparty_backing_num % SCALE == 0
            && d.source_lien_insurance_backing_num % SCALE == 0
            && d.source_lien_counterparty_backing_num + d.source_lien_insurance_backing_num
            == d.source_lien_effective_reserved * (SCALE as int)
            && (d.source_lien_impaired_effective_reserved != 0 ==> d.source_claim_impaired_num != 0)) && d.source_lien_effective_reserved * (SCALE as int) <= u128::MAX ==> r is Ok,
{
    proof {
        if realizability_spec(*d) is Ok {
            lemma_realizability_sound(*d);
        }
        if (d.source_claim_counterparty_liened_num + d.source_claim_insurance_liened_num
            == d.source_claim_liened_num
            && d.source_claim_liened_num + d.source_claim_impaired_num <= d.source_claim_bound_num
            && d.source_lien_effective_reserved * (SCALE as int) < d.source_claim_liened_num + SCALE
            && d.source_lien_counterparty_backing_num % SCALE == 0
            && d.source_lien_insurance_backing_num % SCALE == 0
            && d.source_lien_counterparty_backing_num + d.source_lien_insurance_backing_num
            == d.source_lien_effective_reserved * (SCALE as int)
            && (d.source_lien_impaired_effective_reserved != 0 ==> d.source_claim_impaired_num != 0)) && d.source_lien_effective_reserved * (SCALE as int) <= u128::MAX {
            lemma_realizability_complete(*d);
        }
    }
    let face = d.source_claim_liened_num;
    let cp_face = d.source_claim_counterparty_liened_num;
    let ins_face = d.source_claim_insurance_liened_num;
    let bound = d.source_claim_bound_num;
    let imp_face = d.source_claim_impaired_num;
    let eff = d.source_lien_effective_reserved;
    let cp_back = d.source_lien_counterparty_backing_num;
    let ins_back = d.source_lien_insurance_backing_num;
    let imp_eff = d.source_lien_impaired_effective_reserved;

    match cp_face.checked_add(ins_face) {
        Some(backing_face) => {
            if backing_face != face {
                return Err(ViolationKind::FaceDecomposition);
            }
        },
        None => return Err(ViolationKind::FaceDecomposition),
    }
    match face.checked_add(imp_face) {
        Some(locked_or_impaired) => {
            if locked_or_impaired > bound {
                return Err(ViolationKind::LockedExceedsBound);
            }
        },
        None => return Err(ViolationKind::LockedExceedsBound),
    }
    if eff > amount_from_bound_num(face) {
        return Err(ViolationKind::EffectiveExceedsBacking);
    }
    if !cp_back.is_multiple_of(SCALE) || !ins_back.is_multiple_of(SCALE) {
        return Err(ViolationKind::BackingNotAtomAligned);
    }
    let lien_backing_num = match cp_back.checked_add(ins_back) {
        Some(v) => v,
        None => return Err(ViolationKind::ReservationInexact),
    };
    let expected_backing_num = match eff.checked_mul(SCALE) {
        Some(v) => v,
        None => return Err(ViolationKind::ReservationInexact),
    };
    if lien_backing_num != expected_backing_num {
        return Err(ViolationKind::ReservationInexact);
    }
    if imp_eff != 0 && imp_face == 0 {
        return Err(ViolationKind::ImpairedReserveWithoutFace);
    }
    Ok(())
}

/// The human-readable detail of a broken relationship over `d`.
pub open spec fn describe_spec(kind: ViolationKind, d: DomainObs) -> Seq<char> {
    match kind {
        ViolationKind::FaceDecomposition => "counterparty_face("@ + decimal(
            d.source_claim_counterparty_liened_num as nat,
        ) + ") + insurance_face("@ + decimal(d.source_claim_insurance_liened_num as nat)
            + ") != face_locked("@ + decimal(d.source_claim_liened_num as nat) + ")"@,
        ViolationKind::LockedExceedsBound => "face_locked("@ + decimal(
            d.source_claim_liened_num as nat,
        ) + ") + impaired_face("@ + decimal(d.source_claim_impaired_num as nat)
            + ") exceeds claim_bound("@ + decimal(d.source_claim_bound_num as nat) + ")"@,
        ViolationKind::EffectiveExceedsBacking => "effective_reserved("@ + decimal(
            d.source_lien_effective_reserved as nat,
        ) + ") exceeds realizable backing ceil(face/SCALE)="@ + decimal(
            ceil_scale(d.source_claim_liened_num as int) as nat,
        ),
        ViolationKind::BackingNotAtomAligned => "backing-num not atom-aligned: counterparty("@
            + decimal(d.source_lien_counterparty_backing_num as nat) + "), insurance("@ + decimal(
            d.source_lien_insurance_backing_num as nat,
        ) + ")"@,
        ViolationKind::ReservationInexact => "reserved backing-num(counterparty "@ + decimal(
            d.source_lien_counterparty_backing_num as nat,
        ) + " + insurance "@ + decimal(d.source_lien_insurance_backing_num as nat)
            + ") != effective_reserved("@ + decimal(d.source_lien_effective_reserved as nat)
            + ")*SCALE"@,
        ViolationKind::ImpairedReserveWithoutFace => "impaired_effective_reserved("@ + decimal(
            d.source_lien_impaired_effective_reserved as nat,
        ) + ") != 0 but impaired_face == 0"@,
    }
}

/// Appends the human-readable detail of `kind` over `d` to `s`.
fn push_describe(s: &mut String, kind: ViolationKind, d: &DomainObs)
    ensures
        final(s)@ == old(s)@ + describe_spec(kind, *d),
{
    let ghost start = s@;
    match kind {
        ViolationKind::FaceDecomposition => {
            s.append("counterparty_face(");
            push_decimal(s, d.source_claim_counterparty_liened_num);
            s.append(") + insurance_face(");
            push_decimal(s, d.source_claim_insurance_liened_num);
            s.append(") != face_locked(");
            push_decimal(s, d.source_claim_liened_num);
            s.append(")");
        },
        ViolationKind::LockedExceedsBound => {
            s.append("face_locked(");
            push_decimal(s, d.source_claim_liened_num);
            s.append(") + impaired_face(");
            push_decimal(s, d.source_claim_impaired_num);
            s.append(") exceeds claim_bound(");
            push_decimal(s, d.source_claim_bound_num);
            s.append(")");
        },
        ViolationKind::EffectiveExceedsBacking => {
            s.append("effective_reserved(");
            push_decimal(s, d.source_lien_effective_reserved);
            s.append(") exceeds realizable backing ceil(face/SCALE)=");
            push_decimal(s, amount_from_bound_num(d.source_claim_liened_num));
        },
        ViolationKind::BackingNotAtomAligned => {
            s.append("backing-num not atom-aligned: counterparty(");
            push_decimal(s, d.source_lien_counterparty_backing_num);
            s.append("), insurance(");
            push_decimal(s, d.source_lien_insurance_backing_num);
            s.append(")");
        },
        ViolationKind::ReservationInexact => {
            s.append("reserved backing-num(counterparty ");
            push_decimal(s, d.source_lien_counterparty_backing_num);
            s.append(" + insurance ");
            push_decimal(s, d.source_lien_insurance_backing_num);
            s.append(") != effective_reserved(");
            push_decimal(s, d.source_lien_effective_reserved);
            s.append(")*SCALE");
        },
        ViolationKind::ImpairedReserveWithoutFace => {
            s.append("impaired_effective_reserved(");
            push_decimal(s, d.source_lien_impaired_effective_reserved);
            s.append(") != 0 but impaired_face == 0");
        },
    }
    assert(s@ =~= start + describe_spec(kind, *d));
}

/// O1: check that one observed source domain is realizable, with a
/// human-readable detail on the error path.
pub fn realizability(d: &DomainObs) -> (r: Result<(), Violation>)
    ensures
        r is Ok <==> realizability_spec(*d) is Ok,
        r is Ok ==> (d.source_claim_counterparty_liened_num + d.source_claim_insurance_liened_num
            == d.source_claim_liened_num
            && d.source_claim_liened_num + d.source_claim_impaired_num <= d.source_claim_bound_num
            && d.source_lien_effective_reserved * (SCALE as int) < d.source_claim_liened_num + SCALE
            && d.source_lien_counterparty_backing_num % SCALE == 0
            && d.source_lien_insurance_backing_num % SCALE == 0
            && d.source_lien_counterparty_backing_num + d.source_lien_insurance_backing_num
            == d.source_lien_effective_reserved * (SCALE as int)
            && (d.source_lien_impaired_effective_reserved != 0 ==> d.source_claim_impaired_num != 0)),
        (d.source_claim_counterparty_liened_num + d.source_claim_insurance_liened_num
            == d.source_claim_liened_num
            && d.source_claim_liened_num + d.source_claim_impaired_num <= d.source_claim_bound_num
            && d.source_lien_effective_reserved * (SCALE as int) < d.source_claim_liened_num + SCALE
            && d.source_lien_counterparty_backing_num % SCALE == 0
            && d.source_lien_insurance_backing_num % SCALE == 0
            && d.source_lien_counterparty_backing_num + d.source_lien_insurance_backing_num
            == d.source_lien_effective_reserved * (SCALE as int)
            && (d.source_lien_impaired_effective_reserved != 0 ==> d.source_claim_impaired_num != 0)) && d.source_lien_effective_reserved * (SCALE as int) <= u128::MAX ==> r is Ok,
        r matches Err(v) ==> {
            let kind = realizability_spec(*d)->Err_0;
            &&& v.requirement@ == violation_requirement(kind)
            &&& v.detail@ == describe_spec(kind, *d)
        },
{
    match realizability_kind(d) {
        Ok(()) => Ok(()),
        Err(kind) => {
            let mut detail = String::new();
            push_describe(&mut detail, kind, d);
            Err(Violation { requirement: kind.requirement(), detail })
        },
    }
}

/// Domain `di` of account `ai` is realizable.
pub open spec fn domain_ok(accounts: Seq<AccountObs>, ai: int, di: int) -> bool {
    realizability_spec(accounts[ai].domains@[di]) is Ok
}

/// `(ai, di)` is a valid account/domain position.
pub open spec fn domain_at(accounts: Seq<AccountObs>, ai: int, di: int) -> bool {
    0 <= ai < accounts.len() && 0 <= di < accounts[ai].domains@.len()
}

/// Every domain before `(ai, di)` in account-major order is realizable.
pub open spec fn domains_ok_before(accounts: Seq<AccountObs>, ai: int, di: int) -> bool {
    &&& forall|a: int, b: int|
        #![trigger accounts[a].domains@[b]]
        0 <= a < ai && domain_at(accounts, a, b) ==> domain_ok(accounts, a, b)
    &&& forall|b: int|
        0 <= b < di && domain_at(accounts, ai, b) ==> #[trigger] domain_ok(accounts, ai, b)
}

/// Run [`realizability`] across every account and every source domain of an
/// observation; the error names the first offending account and domain.
pub fn check_observation(obs: &Observation) -> (r: Result<(), Violation>)
    ensures
        r is Ok <==> forall|ai: int, di: int|
            #![trigger obs.accounts@[ai].domains@[di]]
            domain_at(obs.accounts@, ai, di) ==> domain_ok(obs.accounts@, ai, di),
        r matches Err(v) ==> exists|ai: int, di: int|
            #![trigger obs.accounts@[ai].domains@[di]]
            {
                let d = obs.accounts@[ai].domains@[di];
                let kind = realizability_spec(d)->Err_0;
                &&& domain_at(obs.accounts@, ai, di)
                &&& !domain_ok(obs.accounts@, ai, di)
                &&& domains_ok_before(obs.accounts@, ai, di)
                &&& v.requirement@ == violation_requirement(kind)
                &&& v.detail@ == "account "@ + decimal(ai as nat) + ", domain "@ + decimal(
                    di as nat,
                ) + ": "@ + describe_spec(kind, d)
            },
{
    let mut ai: usize = 0;
    while ai < obs.accounts.len()
        invariant
            ai <= obs.accounts@.len(),
            forall|a: int, b: int|
                #![trigger obs.accounts@[a].domains@[b]]
                0 <= a < ai && domain_at(obs.accounts@, a, b) ==> domain_ok(obs.accounts@, a, b),
        decreases obs.accounts@.len() - ai,
    {
        let acct = &obs.accounts[ai];
        let mut di: usize = 0;
        while di < acct.domains.len()
            invariant
                ai < obs.accounts@.len(),
                acct == obs.accounts@[ai as int],
                di <= acct.domains@.len(),
                domains_ok_before(obs.accounts@, ai as int, di as int),
            decreases acct.domains@.len() - di,
        {
            let dom = &acct.domains[di];
            match realizability_kind(dom) {
                Ok(()) => {},
                Err(kind) => {
                    let mut detail = String::from_str("account ");
                    push_decimal(&mut detail, ai as u128);
                    detail.append(", domain ");
                    push_decimal(&mut detail, di as u128);
                    detail.append(": ");
                    push_describe(&mut detail, kind, dom);
                    assert(domain_at(obs.accounts@, ai as int, di as int));
                    return Err(Violation { requirement: kind.requirement(), detail });
                },
            }
            di = di + 1;
        }
        ai = ai + 1;
    }
    Ok(())
}

/// The O1 checker is sound: a domain it clears satisfies all six exact
/// relationships over unbounded integers.
pub proof fn lemma_realizability_sound(d: DomainObs)
    requires
        realizability_spec(d) is Ok,
    ensures
        d.source_claim_counterparty_liened_num + d.source_claim_insurance_liened_num
            == d.source_claim_liened_num,
        d.source_claim_liened_num + d.source_claim_impaired_num <= d.source_claim_bound_num,
        d.source_lien_effective_reserved * (SCALE as int) < d.source_claim_liened_num + SCALE,
        d.source_lien_counterparty_backing_num % SCALE == 0,
        d.source_lien_insurance_backing_num % SCALE == 0,
        d.source_lien_counterparty_backing_num + d.source_lien_insurance_backing_num
            == d.source_lien_effective_reserved * (SCALE as int),
        d.source_lien_impaired_effective_reserved != 0 ==> d.source_claim_impaired_num != 0,
{
    let face = d.source_claim_liened_num as int;
    let eff = d.source_lien_effective_reserved as int;
    let s = SCALE as int;
    assert(eff <= ceil_scale(face));
    assert(face == s * (face / s) + face % s) by (nonlinear_arith)
        requires s > 0;
    assert(eff * s < face + s) by (nonlinear_arith)
        requires
            s > 0,
            face >= 0,
            face == s * (face / s) + face % s,
            0 <= face % s < s,
            eff <= (if face % s == 0 { face / s } else { face / s + 1 }),
    {
        if face % s == 0 {
            assert(eff * s <= (face / s) * s);
        } else {
            assert(eff * s <= (face / s + 1) * s);
        }
    }
}

/// The O1 checker is complete: every domain satisfying the six relationships
/// (with the cap `eff <= ceil(face / SCALE)` written as
/// `eff * SCALE < face + SCALE`) is cleared, a lien below the cap included. The
/// one proviso is a machine limit: the reserved backing `eff * SCALE` must fit
/// in a `u128`, since the checker fails closed when it cannot compute it.
pub proof fn lemma_realizability_complete(d: DomainObs)
    requires
        d.source_claim_counterparty_liened_num + d.source_claim_insurance_liened_num
            == d.source_claim_liened_num
            && d.source_claim_liened_num + d.source_claim_impaired_num <= d.source_claim_bound_num
            && d.source_lien_effective_reserved * (SCALE as int) < d.source_claim_liened_num + SCALE
            && d.source_lien_counterparty_backing_num % SCALE == 0
            && d.source_lien_insurance_backing_num % SCALE == 0
            && d.source_lien_counterparty_backing_num + d.source_lien_insurance_backing_num
            == d.source_lien_effective_reserved * (SCALE as int)
            && (d.source_lien_impaired_effective_reserved != 0 ==> d.source_claim_impaired_num != 0),
        d.source_lien_effective_reserved * (SCALE as int) <= u128::MAX,
    ensures
        realizability_spec(d) is Ok,
{
    let face = d.source_claim_liened_num as int;
    let eff = d.source_lien_effective_reserved as int;
    let s = SCALE as int;
    assert(face == s * (face / s) + face % s) by (nonlinear_arith)
        requires s > 0;
    assert(eff <= ceil_scale(face)) by (nonlinear_arith)
        requires
            s > 0,
            face >= 0,
            eff >= 0,
            face == s * (face / s) + face % s,
            0 <= face % s < s,
            eff * s < face + s,
            ceil_scale(face) == (if face % s == 0 { face / s } else { face / s + 1 }),
    {
        if eff > (if face % s == 0 { face / s } else { face / s + 1 }) {
            if face % s == 0 {
                assert(eff >= face / s + 1);
                assert(eff * s >= (face / s + 1) * s);
            } else {
                assert(eff >= face / s + 2);
                assert(eff * s >= (face / s + 2) * s);
            }
        }
    }
}

} // verus!
