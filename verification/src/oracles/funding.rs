//! Funding claimable-value conservation: funding is a zero-sum transfer, so the
//! total claimable value `M = Σ (capital + pnl)` over all accounts must change
//! by exactly the net external flow over a window,
//! `cur_claimable - prev_claimable == ext_in - ext_out`.
use vstd::prelude::*;
use crate::driver::{AccountObs, Observation};
use crate::oracles::{as_i128, cast_i128, Violation};
use crate::text::{decimal, push_decimal, push_signed, signed_decimal};

verus! {

/// The claimable value of one account: `capital as i128 + pnl`.
pub open spec fn account_claimable(a: AccountObs) -> int {
    cast_i128(a.capital) + a.pnl
}

/// `Σ (capital as i128 + pnl)` over the first `n` accounts.
pub open spec fn claimable_prefix(accounts: Seq<AccountObs>, n: int) -> int
    decreases n,
{
    if n <= 0 {
        0
    } else {
        claimable_prefix(accounts, n - 1) + account_claimable(accounts[n - 1])
    }
}

/// The total claimable value of an observation.
pub open spec fn claimable_spec(obs: Observation) -> int {
    claimable_prefix(obs.accounts@, obs.accounts@.len() as int)
}

/// Every per-account term and every running total of the claimable sum fits
/// in an `i128`.
pub open spec fn claimable_fits(obs: Observation) -> bool {
    forall|n: int|
        0 <= n < obs.accounts@.len() ==> {
            &&& i128::MIN <= #[trigger] account_claimable(obs.accounts@[n]) <= i128::MAX
            &&& i128::MIN <= claimable_prefix(obs.accounts@, n + 1) <= i128::MAX
        }
}

/// Total claimable value of an observation: `Σ (capital + pnl)` over all
/// accounts, in quote atoms.
pub fn claimable_value(obs: &Observation) -> (r: i128)
    requires
        claimable_fits(*obs),
    ensures
        r == claimable_spec(*obs),
{
    let mut total: i128 = 0;
    let mut i: usize = 0;
    while i < obs.accounts.len()
        invariant
            i <= obs.accounts@.len(),
            claimable_fits(*obs),
            total == claimable_prefix(obs.accounts@, i as int),
        decreases obs.accounts@.len() - i,
    {
        let a = &obs.accounts[i];
        assert(i128::MIN <= account_claimable(obs.accounts@[i as int]) <= i128::MAX);
        let term = as_i128(a.capital) + a.pnl;
        total = total + term;
        i = i + 1;
    }
    total
}

/// Which direction funding claimable-value conservation broke.
#[derive(Clone, Copy, Debug, PartialEq, Eq, Structural)]
pub enum FundingConservationKind {
    /// Claimable value fell below the net external flow (value destroyed).
    ClaimableValueDestroyed,
    /// Claimable value rose beyond the net external flow (value created).
    ClaimableValueCreated,
}

/// The citation of a funding conservation breach.
pub open spec fn funding_requirement() -> Seq<char> {
    "funding value conservation (req#14 rounding-residue sink; floor/ceil asymmetry wide_math.rs:1441 vs :1435; StockReconciliation dead v16.rs:3019)"@
}

impl FundingConservationKind {
    /// The spec/engine citation this breaks.
    pub fn requirement(self) -> (r: &'static str)
        ensures
            r@ == funding_requirement(),
    {
        "funding value conservation (req#14 rounding-residue sink; floor/ceil asymmetry wide_math.rs:1441 vs :1435; StockReconciliation dead v16.rs:3019)"
    }
}

/// Outcome of the claimable-value balance over a window: `prev_claimable +
/// ext_in` against `cur_claimable + ext_out` over `i128`; a flow or a side
/// beyond the `i128` range is reported as value destroyed.
pub open spec fn funding_spec(prev_claimable: i128, cur_claimable: i128, ext_in: u128, ext_out: u128) -> Result<
    (),
    FundingConservationKind,
> {
    let lhs = prev_claimable + ext_in;
    let rhs = cur_claimable + ext_out;
    if ext_in > i128::MAX || ext_out > i128::MAX {
        Err(FundingConservationKind::ClaimableValueDestroyed)
    } else if lhs < i128::MIN || lhs > i128::MAX || rhs < i128::MIN || rhs > i128::MAX {
        Err(FundingConservationKind::ClaimableValueDestroyed)
    } else if lhs == rhs {
        Ok(())
    } else if lhs > rhs {
        Err(FundingConservationKind::ClaimableValueDestroyed)
    } else {
        Err(FundingConservationKind::ClaimableValueCreated)
    }
}

/// Funding claimable-value conservation arithmetic core.
pub fn funding_conservation_kind(prev_claimable: i128, cur_claimable: i128, ext_in: u128, ext_out: u128) -> (r:
    Result<(), FundingConservationKind>)
    ensures
        r == funding_spec(prev_claimable, cur_claimable, ext_in, ext_out),
{
    if ext_in > i128::MAX as u128 {
        return Err(FundingConservationKind::ClaimableValueDestroyed);
    }
    if ext_out > i128::MAX as u128 {
        return Err(FundingConservationKind::ClaimableValueDestroyed);
    }
    let ext_in_i = ext_in as i128;
    let ext_out_i = ext_out as i128;
    let lhs = prev_claimable.checked_add(ext_in_i);
    let rhs = cur_claimable.checked_add(ext_out_i);
    match (lhs, rhs) {
        (Some(l), Some(r)) => {
            if l == r {
                Ok(())
            } else if l > r {
                Err(FundingConservationKind::ClaimableValueDestroyed)
            } else {
                Err(FundingConservationKind::ClaimableValueCreated)
            }
        },
        _ => Err(FundingConservationKind::ClaimableValueDestroyed),
    }
}

/// The destroyed amount rendered in a detail:
/// `(prev + ext_in as i128) - (cur + ext_out as i128)`.
pub open spec fn destroyed_amount(prev_claimable: int, cur_claimable: int, ext_in: u128, ext_out: u128) -> int {
    (prev_claimable + cast_i128(ext_in)) - (cur_claimable + cast_i128(ext_out))
}

/// Every intermediate of [`destroyed_amount`] fits in an `i128`.
pub open spec fn destroyed_amount_fits(prev_claimable: int, cur_claimable: int, ext_in: u128, ext_out: u128) -> bool {
    &&& i128::MIN <= prev_claimable + cast_i128(ext_in) <= i128::MAX
    &&& i128::MIN <= cur_claimable + cast_i128(ext_out) <= i128::MAX
    &&& i128::MIN <= destroyed_amount(prev_claimable, cur_claimable, ext_in, ext_out) <= i128::MAX
}

/// The human-readable detail of a funding conservation breach.
pub open spec fn funding_detail(
    kind: FundingConservationKind,
    prev_claimable: int,
    cur_claimable: int,
    ext_in: u128,
    ext_out: u128,
) -> Seq<char> {
    let head = "claimable value Σ(capital+pnl) "@ + signed_decimal(prev_claimable) + " -> "@
        + signed_decimal(cur_claimable) + " but net external flow was +"@ + decimal(ext_in as nat)
        + "/-"@ + decimal(ext_out as nat) + ": "@;
    match kind {
        FundingConservationKind::ClaimableValueDestroyed => head + signed_decimal(
            destroyed_amount(prev_claimable, cur_claimable, ext_in, ext_out),
        )
            + " atoms DESTROYED (funding floor/ceil leak to unattributable vault slack; no req#14 sink)"@,
        FundingConservationKind::ClaimableValueCreated => head
            + "value CREATED beyond external inflow (extractive direction)"@,
    }
}

/// The verdict of the funding oracle over a window of observations.
pub open spec fn window_funding(prev: Observation, cur: Observation, ext_in: u128, ext_out: u128) -> Result<
    (),
    FundingConservationKind,
> {
    funding_spec(claimable_spec(prev) as i128, claimable_spec(cur) as i128, ext_in, ext_out)
}

/// Funding claimable-value conservation over a window `(prev, cur)` with the
/// window's net external flow.
pub fn funding_value_conservation(prev: &Observation, cur: &Observation, ext_in: u128, ext_out: u128) -> (r:
    Result<(), Violation>)
    requires
        claimable_fits(*prev),
        claimable_fits(*cur),
        window_funding(*prev, *cur, ext_in, ext_out) == Err::<(), FundingConservationKind>(
            FundingConservationKind::ClaimableValueDestroyed,
        ) ==> destroyed_amount_fits(claimable_spec(*prev), claimable_spec(*cur), ext_in, ext_out),
    ensures
        match window_funding(*prev, *cur, ext_in, ext_out) {
            Ok(()) => r is Ok,
            Err(kind) => r matches Err(v) && v.requirement@ == funding_requirement() && v.detail@
                == funding_detail(kind, claimable_spec(*prev), claimable_spec(*cur), ext_in, ext_out),
        },
        r is Ok <==> (ext_in <= i128::MAX && ext_out <= i128::MAX && claimable_spec(*prev) + ext_in
            <= i128::MAX && claimable_spec(*cur) + ext_out <= i128::MAX && claimable_spec(*prev)
            + ext_in == claimable_spec(*cur) + ext_out),
{
    let p = claimable_value(prev);
    let c = claimable_value(cur);
    proof {
        lemma_funding_exact(p, c, ext_in, ext_out);
    }
    match funding_conservation_kind(p, c, ext_in, ext_out) {
        Ok(()) => Ok(()),
        Err(kind) => {
            let mut d = String::from_str("claimable value Σ(capital+pnl) ");
            push_signed(&mut d, p);
            d.append(" -> ");
            push_signed(&mut d, c);
            d.append(" but net external flow was +");
            push_decimal(&mut d, ext_in);
            d.append("/-");
            push_decimal(&mut d, ext_out);
            d.append(": ");
            match kind {
                FundingConservationKind::ClaimableValueDestroyed => {
                    push_signed(&mut d, (p + as_i128(ext_in)) - (c + as_i128(ext_out)));
                    d.append(
                        " atoms DESTROYED (funding floor/ceil leak to unattributable vault slack; no req#14 sink)",
                    );
                },
                FundingConservationKind::ClaimableValueCreated => {
                    d.append("value CREATED beyond external inflow (extractive direction)");
                },
            }
            assert(d@ =~= funding_detail(
                kind,
                claimable_spec(*prev),
                claimable_spec(*cur),
                ext_in,
                ext_out,
            ));
            Err(Violation { requirement: kind.requirement(), detail: d })
        },
    }
}

/// `Σ (ext_in_step as i128)` over the first `n` observations.
pub open spec fn inflow_prefix(obs: Seq<Observation>, n: int) -> int
    decreases n,
{
    if n <= 0 {
        0
    } else {
        inflow_prefix(obs, n - 1) + cast_i128(obs[n - 1].ext_in_step)
    }
}

/// `Σ (ext_out_step as i128)` over the first `n` observations.
pub open spec fn outflow_prefix(obs: Seq<Observation>, n: int) -> int
    decreases n,
{
    if n <= 0 {
        0
    } else {
        outflow_prefix(obs, n - 1) + cast_i128(obs[n - 1].ext_out_step)
    }
}

/// The net external flow of a whole trace.
pub open spec fn trace_net_external(obs: Seq<Observation>) -> int {
    inflow_prefix(obs, obs.len() as int) - outflow_prefix(obs, obs.len() as int)
}

/// The claimable value at the end of a trace (`0` for an empty trace).
pub open spec fn trace_final_claimable(obs: Seq<Observation>) -> int {
    if obs.len() == 0 {
        0
    } else {
        claimable_spec(obs.last())
    }
}

/// Every running total of [`claimable_shortfall`] fits in an `i128`.
pub open spec fn shortfall_fits(obs: Seq<Observation>) -> bool {
    &&& forall|n: int|
        0 < n <= obs.len() ==> i128::MIN <= #[trigger] inflow_prefix(obs, n) <= i128::MAX
            && i128::MIN <= outflow_prefix(obs, n) <= i128::MAX
    &&& i128::MIN <= trace_net_external(obs) <= i128::MAX
    &&& obs.len() > 0 ==> claimable_fits(obs.last())
    &&& i128::MIN <= trace_net_external(obs) - trace_final_claimable(obs) <= i128::MAX
}

/// The claimable-value shortfall of a whole trace: `(net external inflow,
/// final claimable value, net external inflow - final claimable value)`.
pub fn claimable_shortfall(observations: &[Observation]) -> (r: (i128, i128, i128))
    requires
        shortfall_fits(observations@),
    ensures
        r.0 == trace_net_external(observations@),
        r.1 == trace_final_claimable(observations@),
        r.2 == r.0 - r.1,
{
    let mut cum_in: i128 = 0;
    let mut cum_out: i128 = 0;
    let mut i: usize = 0;
    while i < observations.len()
        invariant
            i <= observations@.len(),
            shortfall_fits(observations@),
            cum_in == inflow_prefix(observations@, i as int),
            cum_out == outflow_prefix(observations@, i as int),
        decreases observations@.len() - i,
    {
        assert(i128::MIN <= inflow_prefix(observations@, i + 1) <= i128::MAX);
        cum_in = cum_in + as_i128(observations[i].ext_in_step);
        cum_out = cum_out + as_i128(observations[i].ext_out_step);
        i = i + 1;
    }
    let net_ext = cum_in - cum_out;
    let m_final = if observations.len() == 0 {
        0
    } else {
        claimable_value(&observations[observations.len() - 1])
    };
    (net_ext, m_final, net_ext - m_final)
}

/// The funding checker is exact: it clears a window iff both flows fit in an
/// `i128`, both sides fit, and `prev + ext_in == cur + ext_out`; it reports
/// value destroyed when the left side exceeds the right (or a quantity does
/// not fit) and value created otherwise.
pub proof fn lemma_funding_exact(prev_claimable: i128, cur_claimable: i128, ext_in: u128, ext_out: u128)
    ensures
        funding_spec(prev_claimable, cur_claimable, ext_in, ext_out) is Ok <==> ext_in <= i128::MAX
            && ext_out <= i128::MAX && prev_claimable + ext_in <= i128::MAX && cur_claimable
            + ext_out <= i128::MAX && prev_claimable + ext_in == cur_claimable + ext_out,
        funding_spec(prev_claimable, cur_claimable, ext_in, ext_out) == Err::<
            (),
            FundingConservationKind,
        >(FundingConservationKind::ClaimableValueCreated) ==> prev_claimable + ext_in
            < cur_claimable + ext_out,
{
}

/// The whole-trace shortfall and the funding checker agree: judged over the
/// window from the empty system (claimable value `0`, inflow the trace's
/// non-negative net external flow, no outflow) to the end of the trace, value is
/// conserved iff the shortfall is zero, destroyed iff it is positive, and
/// created iff it is negative.
pub proof fn lemma_shortfall_matches_funding_oracle(net_ext: i128, m_final: i128)
    requires
        0 <= net_ext,
    ensures
        funding_spec(0, m_final, net_ext as u128, 0) is Ok <==> net_ext - m_final == 0,
        funding_spec(0, m_final, net_ext as u128, 0) == Err::<(), FundingConservationKind>(
            FundingConservationKind::ClaimableValueDestroyed,
        ) <==> net_ext - m_final > 0,
        funding_spec(0, m_final, net_ext as u128, 0) == Err::<(), FundingConservationKind>(
            FundingConservationKind::ClaimableValueCreated,
        ) <==> net_ext - m_final < 0,
{
}

proof fn lemma_claimable_prefix_push(accounts: Seq<AccountObs>, a: AccountObs, n: int)
    requires
        0 <= n <= accounts.len(),
    ensures
        claimable_prefix(accounts.push(a), n) == claimable_prefix(accounts, n),
    decreases n,
{
    if n > 0 {
        lemma_claimable_prefix_push(accounts, a, n - 1);
    }
}

/// The total claimable value is the sum of every account's `capital + pnl`:
/// it is `0` without accounts, and adding an account (whose capital fits in an
/// `i128`) adds exactly that account's capital plus its pnl.
pub proof fn lemma_claimable_adds_accounts(accounts: Seq<AccountObs>, a: AccountObs)
    requires
        a.capital <= i128::MAX,
    ensures
        claimable_prefix(Seq::<AccountObs>::empty(), 0) == 0,
        claimable_prefix(accounts.push(a), accounts.len() + 1int) == claimable_prefix(
            accounts,
            accounts.len() as int,
        ) + a.capital + a.pnl,
{
    lemma_claimable_prefix_push(accounts, a, accounts.len() as int);
    assert(accounts.push(a)[accounts.len() as int] == a);
}

} // verus!
