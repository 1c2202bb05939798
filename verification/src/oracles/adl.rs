//! Quantity-ADL exact accounting: a cross-step (delta) check over the acted-on
//! account's close-progress `quantity_adl_applied_q`.
//!
//! Across one accepted ADL step:
//! (E1) the ledger rises by exactly the outcome's `closed_q`;
//! (E2) `closed_q > 0`;
//! (E3) the outcome's reported post-ledger value equals the account's observed
//!      ledger value.
use vstd::prelude::*;
use crate::driver::{AdlObs, Observation};
use crate::oracles::Violation;
use crate::scenario::Action;
use crate::text::{decimal, push_decimal, wrap_sub, wrapping_difference};

verus! {

/// Which ADL accounting relationship was broken.
#[derive(Clone, Copy, Debug, PartialEq, Eq, Structural)]
pub enum AdlAccountingKind {
    /// (E2) the outcome closed a zero quantity.
    ClosedQZero,
    /// (E3) the observed ledger disagrees with the outcome's reported value.
    LedgerOutcomeMismatch,
    /// (E1) the ledger did not rise by exactly `closed_q`.
    AppliedDeltaNotClosedQ,
    /// The baseline ledger value could not be read.
    MissingPrevAccount,
}

/// The citation each ADL kind breaks.
pub open spec fn adl_requirement(kind: AdlAccountingKind) -> Seq<char> {
    match kind {
        AdlAccountingKind::ClosedQZero => "ADL accounting (v16.rs:9609)"@,
        AdlAccountingKind::LedgerOutcomeMismatch => "ADL accounting (v16.rs:9533)"@,
        AdlAccountingKind::AppliedDeltaNotClosedQ => "ADL accounting (v16.rs:9533)"@,
        AdlAccountingKind::MissingPrevAccount => "ADL accounting (v16.rs:9530)"@,
    }
}

impl AdlAccountingKind {
    /// The engine citation this breaks.
    pub fn requirement(self) -> (r: &'static str)
        ensures
            r@ == adl_requirement(self),
    {
        match self {
            AdlAccountingKind::ClosedQZero => "ADL accounting (v16.rs:9609)",
            AdlAccountingKind::LedgerOutcomeMismatch => "ADL accounting (v16.rs:9533)",
            AdlAccountingKind::AppliedDeltaNotClosedQ => "ADL accounting (v16.rs:9533)",
            AdlAccountingKind::MissingPrevAccount => "ADL accounting (v16.rs:9530)",
        }
    }
}

/// The ADL accounting verdict, checks in the order (E2), (E3), (E1).
pub open spec fn adl_accounting_spec(prev_applied_q: u128, cur_applied_q: u128, adl: AdlObs) -> Result<
    (),
    AdlAccountingKind,
> {
    if adl.closed_q == 0 {
        Err(AdlAccountingKind::ClosedQZero)
    } else if cur_applied_q != adl.quantity_adl_applied_q {
        Err(AdlAccountingKind::LedgerOutcomeMismatch)
    } else if cur_applied_q < prev_applied_q || cur_applied_q - prev_applied_q != adl.closed_q {
        Err(AdlAccountingKind::AppliedDeltaNotClosedQ)
    } else {
        Ok(())
    }
}

/// ADL accounting arithmetic core over the baseline ledger value, the
/// post-step ledger value and the outcome.
pub fn adl_accounting_kind(prev_applied_q: u128, cur_applied_q: u128, adl: &AdlObs) -> (r: Result<
    (),
    AdlAccountingKind,
>)
    ensures
        r == adl_accounting_spec(prev_applied_q, cur_applied_q, *adl),
{
    if adl.closed_q == 0 {
        return Err(AdlAccountingKind::ClosedQZero);
    }
    if cur_applied_q != adl.quantity_adl_applied_q {
        return Err(AdlAccountingKind::LedgerOutcomeMismatch);
    }
    match cur_applied_q.checked_sub(prev_applied_q) {
        Some(delta) => {
            if delta != adl.closed_q {
                return Err(AdlAccountingKind::AppliedDeltaNotClosedQ);
            }
        },
        None => return Err(AdlAccountingKind::AppliedDeltaNotClosedQ),
    }
    Ok(())
}

/// The observed ledger value of account `index`, if observed.
pub open spec fn ledger_spec(obs: Observation, index: int) -> Option<u128> {
    if 0 <= index < obs.accounts@.len() {
        Some(obs.accounts@[index].quantity_adl_applied_q)
    } else {
        None
    }
}

fn account_ledger(obs: &Observation, index: usize) -> (r: Option<u128>)
    ensures
        r == ledger_spec(*obs, index as int),
{
    if index < obs.accounts.len() {
        Some(obs.accounts[index].quantity_adl_applied_q)
    } else {
        None
    }
}

/// The human-readable detail of an ADL accounting breach.
pub open spec fn adl_detail(
    kind: AdlAccountingKind,
    account: usize,
    prev_applied_q: u128,
    cur_applied_q: u128,
    adl: AdlObs,
) -> Seq<char> {
    let head = "account "@ + decimal(account as nat) + ": "@;
    match kind {
        AdlAccountingKind::ClosedQZero => head
            + "ADL outcome reports closed_q == 0, but a real ADL closes a non-zero quantity (v16.rs:9609/9522)"@,
        AdlAccountingKind::LedgerOutcomeMismatch => head + "observed quantity_adl_applied_q("@
            + decimal(cur_applied_q as nat)
            + ") disagrees with the ADL outcome's reported post-ledger value("@ + decimal(
            adl.quantity_adl_applied_q as nat,
        ) + ") — two views of the same engine field must coincide (v16.rs:9533)"@,
        AdlAccountingKind::AppliedDeltaNotClosedQ => head + "quantity_adl_applied_q moved "@
            + decimal(prev_applied_q as nat) + " -> "@ + decimal(cur_applied_q as nat)
            + " (delta "@ + decimal(wrap_sub(cur_applied_q, prev_applied_q))
            + "), but the ADL closed_q is "@ + decimal(adl.closed_q as nat)
            + " — the ledger must rise by exactly closed_q (v16.rs:9533)"@,
        AdlAccountingKind::MissingPrevAccount => head
            + "no pre-ADL baseline for quantity_adl_applied_q; cannot certify the exact-accounting delta (v16.rs:9530)"@,
    }
}

fn describe_adl(
    kind: AdlAccountingKind,
    account: usize,
    prev_applied_q: u128,
    cur_applied_q: u128,
    adl: &AdlObs,
) -> (s: String)
    ensures
        s@ == adl_detail(kind, account, prev_applied_q, cur_applied_q, *adl),
{
    let mut s = String::from_str("account ");
    push_decimal(&mut s, account as u128);
    s.append(": ");
    let ghost head = s@;
    match kind {
        AdlAccountingKind::ClosedQZero => {
            s.append(
                "ADL outcome reports closed_q == 0, but a real ADL closes a non-zero quantity (v16.rs:9609/9522)",
            );
        },
        AdlAccountingKind::LedgerOutcomeMismatch => {
            s.append("observed quantity_adl_applied_q(");
            push_decimal(&mut s, cur_applied_q);
            s.append(") disagrees with the ADL outcome's reported post-ledger value(");
            push_decimal(&mut s, adl.quantity_adl_applied_q);
            s.append(") — two views of the same engine field must coincide (v16.rs:9533)");
        },
        AdlAccountingKind::AppliedDeltaNotClosedQ => {
            s.append("quantity_adl_applied_q moved ");
            push_decimal(&mut s, prev_applied_q);
            s.append(" -> ");
            push_decimal(&mut s, cur_applied_q);
            s.append(" (delta ");
            push_decimal(&mut s, wrapping_difference(cur_applied_q, prev_applied_q));
            s.append("), but the ADL closed_q is ");
            push_decimal(&mut s, adl.closed_q);
            s.append(" — the ledger must rise by exactly closed_q (v16.rs:9533)");
        },
        AdlAccountingKind::MissingPrevAccount => {
            s.append(
                "no pre-ADL baseline for quantity_adl_applied_q; cannot certify the exact-accounting delta (v16.rs:9530)",
            );
        },
    }
    assert(s@ =~= adl_detail(kind, account, prev_applied_q, cur_applied_q, *adl));
    s
}

/// The acted-on account of an ADL step.
pub open spec fn adl_account_of(a: Action) -> Option<usize> {
    match a {
        Action::ApplyAdl { account, .. } => Some(account as usize),
        _ => None,
    }
}

/// ADL exact-accounting oracle over a consecutive `(prev, cur)` pair: a no-op
/// unless `cur` carries an ADL outcome; then the acted-on account's ledger must
/// rise by exactly the (non-zero) closed quantity.
pub fn adl_accounting(prev: &Observation, cur: &Observation) -> (r: Result<(), Violation>)
    ensures
        cur.adl is None ==> r is Ok,
        cur.adl matches Some(adl) ==> match adl_account_of(cur.action) {
            None => r matches Err(v) && v.requirement@ == adl_requirement(
                AdlAccountingKind::AppliedDeltaNotClosedQ,
            ) && v.detail@
                == "ADL outcome present on a non-ApplyAdl step; cannot identify the acted-on account to certify exact accounting"@,
            Some(account) => match (
                ledger_spec(*prev, account as int),
                ledger_spec(*cur, account as int),
            ) {
                (None, _) => r matches Err(v) && v.requirement@ == adl_requirement(
                    AdlAccountingKind::MissingPrevAccount,
                ) && v.detail@ == "account "@ + decimal(account as nat)
                    + ": no pre-ADL observation of its quantity_adl_applied_q baseline; cannot certify the exact-accounting delta"@,
                (Some(_), None) => r matches Err(v) && v.requirement@ == adl_requirement(
                    AdlAccountingKind::MissingPrevAccount,
                ) && v.detail@ == "account "@ + decimal(account as nat)
                    + ": no post-ADL observation of its quantity_adl_applied_q; cannot certify the exact-accounting delta"@,
                (Some(p), Some(c)) => match adl_accounting_spec(p, c, adl) {
                    Ok(()) => r is Ok,
                    Err(kind) => r matches Err(v) && v.requirement@ == adl_requirement(kind)
                        && v.detail@ == adl_detail(kind, account, p, c, adl),
                },
            },
        },
        cur.adl matches Some(adl) ==> cur.action matches Action::ApplyAdl { account, .. } ==> (r is Ok
            <==> ((account as int) < prev.accounts@.len() && (account as int) < cur.accounts@.len()
                && adl.closed_q > 0 && cur.accounts@[account as int].quantity_adl_applied_q
                == adl.quantity_adl_applied_q && cur.accounts@[account as int].quantity_adl_applied_q
                == prev.accounts@[account as int].quantity_adl_applied_q + adl.closed_q)),
{
    let adl = match &cur.adl {
        None => return Ok(()),
        Some(a) => a,
    };
    let account = match cur.action {
        Action::ApplyAdl { account, .. } => account as usize,
        _ => {
            return Err(
                Violation {
                    requirement: AdlAccountingKind::AppliedDeltaNotClosedQ.requirement(),
                    detail: String::from_str(
                        "ADL outcome present on a non-ApplyAdl step; cannot identify the acted-on account to certify exact accounting",
                    ),
                },
            );
        },
    };
    proof {
        lemma_adl_verdict_reads_acted_on_account(*prev, *cur, *adl, cur.action->ApplyAdl_account);
    }
    let prev_applied_q = match account_ledger(prev, account) {
        Some(v) => v,
        None => {
            let mut detail = String::from_str("account ");
            push_decimal(&mut detail, account as u128);
            detail.append(
                ": no pre-ADL observation of its quantity_adl_applied_q baseline; cannot certify the exact-accounting delta",
            );
            return Err(
                Violation { requirement: AdlAccountingKind::MissingPrevAccount.requirement(), detail },
            );
        },
    };
    let cur_applied_q = match account_ledger(cur, account) {
        Some(v) => v,
        None => {
            let mut detail = String::from_str("account ");
            push_decimal(&mut detail, account as u128);
            detail.append(
                ": no post-ADL observation of its quantity_adl_applied_q; cannot certify the exact-accounting delta",
            );
            return Err(
                Violation { requirement: AdlAccountingKind::MissingPrevAccount.requirement(), detail },
            );
        },
    };
    match adl_accounting_kind(prev_applied_q, cur_applied_q, adl) {
        Ok(()) => Ok(()),
        Err(kind) => Err(
            Violation {
                requirement: kind.requirement(),
                detail: describe_adl(kind, account, prev_applied_q, cur_applied_q, adl),
            },
        ),
    }
}

/// [`adl_accounting`] over a consecutive observation pair.
pub fn check_step_adl_accounting(prev: &Observation, cur: &Observation) -> (r: Result<(), Violation>)
    ensures
        cur.adl is None ==> r is Ok,
        cur.adl matches Some(adl) ==> match adl_account_of(cur.action) {
            None => r matches Err(v) && v.requirement@ == adl_requirement(
                AdlAccountingKind::AppliedDeltaNotClosedQ,
            ) && v.detail@
                == "ADL outcome present on a non-ApplyAdl step; cannot identify the acted-on account to certify exact accounting"@,
            Some(account) => match (
                ledger_spec(*prev, account as int),
                ledger_spec(*cur, account as int),
            ) {
                (None, _) => r matches Err(v) && v.requirement@ == adl_requirement(
                    AdlAccountingKind::MissingPrevAccount,
                ) && v.detail@ == "account "@ + decimal(account as nat)
                    + ": no pre-ADL observation of its quantity_adl_applied_q baseline; cannot certify the exact-accounting delta"@,
                (Some(_), None) => r matches Err(v) && v.requirement@ == adl_requirement(
                    AdlAccountingKind::MissingPrevAccount,
                ) && v.detail@ == "account "@ + decimal(account as nat)
                    + ": no post-ADL observation of its quantity_adl_applied_q; cannot certify the exact-accounting delta"@,
                (Some(p), Some(c)) => match adl_accounting_spec(p, c, adl) {
                    Ok(()) => r is Ok,
                    Err(kind) => r matches Err(v) && v.requirement@ == adl_requirement(kind)
                        && v.detail@ == adl_detail(kind, account, p, c, adl),
                },
            },
        },
        cur.adl matches Some(adl) ==> cur.action matches Action::ApplyAdl { account, .. } ==> (r is Ok
            <==> ((account as int) < prev.accounts@.len() && (account as int) < cur.accounts@.len()
                && adl.closed_q > 0 && cur.accounts@[account as int].quantity_adl_applied_q
                == adl.quantity_adl_applied_q && cur.accounts@[account as int].quantity_adl_applied_q
                == prev.accounts@[account as int].quantity_adl_applied_q + adl.closed_q)),
{
    adl_accounting(prev, cur)
}

/// The ADL accounting checker is sound: a cleared step closed a strictly
/// positive quantity, the observed ledger equals the outcome's reported ledger
/// value, and the ledger rose by exactly the closed quantity.
pub proof fn lemma_adl_accounting_sound(prev_applied_q: u128, cur_applied_q: u128, adl: AdlObs)
    requires
        adl_accounting_spec(prev_applied_q, cur_applied_q, adl) is Ok,
    ensures
        adl.closed_q > 0,
        cur_applied_q == adl.quantity_adl_applied_q,
        cur_applied_q == prev_applied_q + adl.closed_q,
{
}

/// For an ADL step on account `account`, the verdict the checker reaches is
/// decided by that account's own `quantity_adl_applied_q` before and after the
/// step, whatever the other accounts' ledgers hold: it clears exactly when both
/// observations hold the account, the outcome closed a positive quantity, the
/// account's post-step ledger equals the outcome's reported value, and the
/// ledger rose by exactly `closed_q`.
pub proof fn lemma_adl_verdict_reads_acted_on_account(
    prev: Observation,
    cur: Observation,
    adl: AdlObs,
    account: u8,
)
    requires
        cur.action matches Action::ApplyAdl { account: a, .. } && a == account,
    ensures
        adl_account_of(cur.action) == Some(account as usize),
        (match (ledger_spec(prev, account as int), ledger_spec(cur, account as int)) {
            (Some(p), Some(c)) => adl_accounting_spec(p, c, adl) is Ok,
            _ => false,
        }) <==> ((account as int) < prev.accounts@.len() && (account as int) < cur.accounts@.len()
                && adl.closed_q > 0 && cur.accounts@[account as int].quantity_adl_applied_q
                == adl.quantity_adl_applied_q && cur.accounts@[account as int].quantity_adl_applied_q
                == prev.accounts@[account as int].quantity_adl_applied_q + adl.closed_q),
{
}

} // verus!
