//! Global quote-value conservation: across a step the instance's total real
//! quote-atom balance (`system.vault`) changes by exactly the net external flow,
//! `cur_vault - prev_vault == ext_in - ext_out`, and the observed partition
//! `c_tot + insurance + backing_provider_earnings` never exceeds the vault.
use vstd::prelude::*;
use crate::driver::{Observation, SystemObs};
use crate::oracles::{as_i128, cast_i128, sat_add, Violation};
use crate::text::{decimal, push_decimal, push_signed, signed_decimal, wrap_sub, wrapping_difference};

verus! {

/// Which conservation relationship was broken across a step.
#[derive(Clone, Copy, Debug, PartialEq, Eq, Structural)]
pub enum ConservationKind {
    /// The vault rose by more than the net external flow (a mint candidate).
    ValueAppeared,
    /// The vault fell by more than the net external flow (a leak candidate).
    ValueDisappeared,
    /// The observed partition exceeds the vault: the measure is untrustworthy.
    PartitionExceedsVault,
}

/// The citation each conservation kind breaks.
pub open spec fn conservation_requirement(kind: ConservationKind) -> Seq<char> {
    match kind {
        ConservationKind::ValueAppeared => "quote-value conservation (req#13; v16.rs:2913 TokenValueFlowProof)"@,
        ConservationKind::ValueDisappeared => "quote-value conservation (req#13; v16.rs:2913 TokenValueFlowProof)"@,
        ConservationKind::PartitionExceedsVault => "stock reconciliation partition (v16.rs:4590 senior<=vault)"@,
    }
}

impl ConservationKind {
    /// The spec/engine citation this breaks.
    pub fn requirement(self) -> (r: &'static str)
        ensures
            r@ == conservation_requirement(self),
    {
        match self {
            ConservationKind::ValueAppeared => "quote-value conservation (req#13; v16.rs:2913 TokenValueFlowProof)",
            ConservationKind::ValueDisappeared => "quote-value conservation (req#13; v16.rs:2913 TokenValueFlowProof)",
            ConservationKind::PartitionExceedsVault => "stock reconciliation partition (v16.rs:4590 senior<=vault)",
        }
    }
}

/// Outcome of the vault balance test over one step. The partition is tested
/// before the balance `prev_vault + ext_in == cur_vault + ext_out`; a side
/// beyond `u128::MAX` is reported as value appearing.
pub open spec fn conservation_spec(
    prev_vault: u128,
    cur_vault: u128,
    ext_in_delta: u128,
    ext_out_delta: u128,
    partition_sum: u128,
) -> Result<(), ConservationKind> {
    let lhs = prev_vault + ext_in_delta;
    let rhs = cur_vault + ext_out_delta;
    if partition_sum > cur_vault {
        Err(ConservationKind::PartitionExceedsVault)
    } else if lhs > u128::MAX || rhs > u128::MAX {
        Err(ConservationKind::ValueAppeared)
    } else if lhs == rhs {
        Ok(())
    } else if lhs < rhs {
        Err(ConservationKind::ValueAppeared)
    } else {
        Err(ConservationKind::ValueDisappeared)
    }
}

/// Conservation arithmetic core.
pub fn value_conservation_kind(
    prev_vault: u128,
    cur_vault: u128,
    ext_in_delta: u128,
    ext_out_delta: u128,
    partition_sum: u128,
) -> (r: Result<(), ConservationKind>)
    ensures
        r == conservation_spec(prev_vault, cur_vault, ext_in_delta, ext_out_delta, partition_sum),
{
    if partition_sum > cur_vault {
        return Err(ConservationKind::PartitionExceedsVault);
    }
    let lhs = prev_vault.checked_add(ext_in_delta);
    let rhs = cur_vault.checked_add(ext_out_delta);
    match (lhs, rhs) {
        (Some(l), Some(r)) => {
            if l == r {
                Ok(())
            } else if l < r {
                Err(ConservationKind::ValueAppeared)
            } else {
                Err(ConservationKind::ValueDisappeared)
            }
        },
        _ => Err(ConservationKind::ValueAppeared),
    }
}

/// `c_tot + insurance + backing_provider_earnings`, saturating.
pub open spec fn partition_spec(s: SystemObs) -> u128 {
    sat_add(sat_add(s.c_tot as int, s.insurance as int), s.backing_provider_earnings as int) as u128
}

fn partition_sum(s: &SystemObs) -> (r: u128)
    ensures
        r == partition_spec(*s),
{
    s.c_tot.saturating_add(s.insurance).saturating_add(s.backing_provider_earnings)
}

/// The net external flow as rendered in a detail: `(ext_in as i128) -
/// (ext_out as i128)`.
pub open spec fn net_flow(ext_in_delta: u128, ext_out_delta: u128) -> int {
    cast_i128(ext_in_delta) - cast_i128(ext_out_delta)
}

/// The rendered net external flow fits in an `i128`.
pub open spec fn net_flow_fits(ext_in_delta: u128, ext_out_delta: u128) -> bool {
    i128::MIN <= net_flow(ext_in_delta, ext_out_delta) <= i128::MAX
}

/// The human-readable detail of a conservation breach.
pub open spec fn conservation_detail(
    kind: ConservationKind,
    prev_vault: u128,
    cur_vault: u128,
    ext_in_delta: u128,
    ext_out_delta: u128,
    s: SystemObs,
) -> Seq<char> {
    let flow = " but net external flow was +"@ + decimal(ext_in_delta as nat) + "/-"@ + decimal(
        ext_out_delta as nat,
    ) + " (net "@ + signed_decimal(net_flow(ext_in_delta, ext_out_delta)) + "): "@;
    match kind {
        ConservationKind::ValueAppeared => "vault "@ + decimal(prev_vault as nat) + " -> "@ + decimal(
            cur_vault as nat,
        ) + " (Δ +"@ + decimal(wrap_sub(cur_vault, prev_vault)) + ")"@ + flow + decimal(
            wrap_sub(
                wrap_sub(cur_vault, prev_vault) as u128,
                wrap_sub(ext_in_delta, ext_out_delta) as u128,
            ),
        )
            + " quote atoms APPEARED beyond the external flow. Triage: is this a value store excluded from the model that legitimately grew (c_tot="@
            + decimal(s.c_tot as nat) + ", insurance="@ + decimal(s.insurance as nat)
            + ", backing_earnings="@ + decimal(s.backing_provider_earnings as nat)
            + "), or a genuine MINT?"@,
        ConservationKind::ValueDisappeared => "vault "@ + decimal(prev_vault as nat) + " -> "@
            + decimal(cur_vault as nat) + " (Δ -"@ + decimal(wrap_sub(prev_vault, cur_vault)) + ")"@
            + flow
            + "quote atoms DISAPPEARED beyond the external flow. Triage: did value legitimately LEAVE (external payout/fee) unaccounted, or is this a genuine LEAK?"@,
        ConservationKind::PartitionExceedsVault => "post-step partition c_tot("@ + decimal(
            s.c_tot as nat,
        ) + ") + insurance("@ + decimal(s.insurance as nat) + ") + backing_earnings("@ + decimal(
            s.backing_provider_earnings as nat,
        ) + ") = "@ + decimal(partition_spec(s) as nat) + " EXCEEDS vault("@ + decimal(
            cur_vault as nat,
        )
            + "): the engine's own senior<=vault invariant (v16.rs:4590) is violated in the observed state, so the conservation measure is untrustworthy"@,
    }
}

fn push_flow(s: &mut String, ext_in_delta: u128, ext_out_delta: u128)
    requires
        net_flow_fits(ext_in_delta, ext_out_delta),
    ensures
        final(s)@ == old(s)@ + (" but net external flow was +"@ + decimal(ext_in_delta as nat) + "/-"@
            + decimal(ext_out_delta as nat) + " (net "@ + signed_decimal(
            net_flow(ext_in_delta, ext_out_delta),
        ) + "): "@),
{
    let ghost start = s@;
    s.append(" but net external flow was +");
    push_decimal(s, ext_in_delta);
    s.append("/-");
    push_decimal(s, ext_out_delta);
    s.append(" (net ");
    push_signed(s, as_i128(ext_in_delta) - as_i128(ext_out_delta));
    s.append("): ");
    assert(s@ =~= start + (" but net external flow was +"@ + decimal(ext_in_delta as nat) + "/-"@
        + decimal(ext_out_delta as nat) + " (net "@ + signed_decimal(
        net_flow(ext_in_delta, ext_out_delta),
    ) + "): "@));
}

fn describe_conservation(
    kind: ConservationKind,
    prev_vault: u128,
    cur_vault: u128,
    ext_in_delta: u128,
    ext_out_delta: u128,
    s: &SystemObs,
) -> (d: String)
    requires
        kind != ConservationKind::PartitionExceedsVault ==> net_flow_fits(ext_in_delta, ext_out_delta),
    ensures
        d@ == conservation_detail(kind, prev_vault, cur_vault, ext_in_delta, ext_out_delta, *s),
{
    match kind {
        ConservationKind::ValueAppeared => {
            let mut d = String::from_str("vault ");
            push_decimal(&mut d, prev_vault);
            d.append(" -> ");
            push_decimal(&mut d, cur_vault);
            d.append(" (Δ +");
            let delta = wrapping_difference(cur_vault, prev_vault);
            push_decimal(&mut d, delta);
            d.append(")");
            push_flow(&mut d, ext_in_delta, ext_out_delta);
            push_decimal(
                &mut d,
                wrapping_difference(delta, wrapping_difference(ext_in_delta, ext_out_delta)),
            );
            d.append(
                " quote atoms APPEARED beyond the external flow. Triage: is this a value store excluded from the model that legitimately grew (c_tot=",
            );
            push_decimal(&mut d, s.c_tot);
            d.append(", insurance=");
            push_decimal(&mut d, s.insurance);
            d.append(", backing_earnings=");
            push_decimal(&mut d, s.backing_provider_earnings);
            d.append("), or a genuine MINT?");
            assert(d@ =~= conservation_detail(
                kind,
                prev_vault,
                cur_vault,
                ext_in_delta,
                ext_out_delta,
                *s,
            ));
            d
        },
        ConservationKind::ValueDisappeared => {
            let mut d = String::from_str("vault ");
            push_decimal(&mut d, prev_vault);
            d.append(" -> ");
            push_decimal(&mut d, cur_vault);
            d.append(" (Δ -");
            push_decimal(&mut d, wrapping_difference(prev_vault, cur_vault));
            d.append(")");
            push_flow(&mut d, ext_in_delta, ext_out_delta);
            d.append(
                "quote atoms DISAPPEARED beyond the external flow. Triage: did value legitimately LEAVE (external payout/fee) unaccounted, or is this a genuine LEAK?",
            );
            assert(d@ =~= conservation_detail(
                kind,
                prev_vault,
                cur_vault,
                ext_in_delta,
                ext_out_delta,
                *s,
            ));
            d
        },
        ConservationKind::PartitionExceedsVault => {
            let mut d = String::from_str("post-step partition c_tot(");
            push_decimal(&mut d, s.c_tot);
            d.append(") + insurance(");
            push_decimal(&mut d, s.insurance);
            d.append(") + backing_earnings(");
            push_decimal(&mut d, s.backing_provider_earnings);
            d.append(") = ");
            push_decimal(&mut d, partition_sum(s));
            d.append(" EXCEEDS vault(");
            push_decimal(&mut d, cur_vault);
            d.append(
                "): the engine's own senior<=vault invariant (v16.rs:4590) is violated in the observed state, so the conservation measure is untrustworthy",
            );
            assert(d@ =~= conservation_detail(
                kind,
                prev_vault,
                cur_vault,
                ext_in_delta,
                ext_out_delta,
                *s,
            ));
            d
        },
    }
}

/// The verdict of the conservation oracle over a pair of observations.
pub open spec fn step_conservation(prev: Observation, cur: Observation, ext_in_delta: u128, ext_out_delta: u128) -> Result<
    (),
    ConservationKind,
> {
    conservation_spec(
        prev.system.vault,
        cur.system.vault,
        ext_in_delta,
        ext_out_delta,
        partition_spec(cur.system),
    )
}

/// The detail of a failing conservation verdict can be rendered: a balance
/// breach renders the net external flow as an `i128`.
pub open spec fn conservation_renderable(prev: Observation, cur: Observation, ext_in_delta: u128, ext_out_delta: u128) -> bool {
    step_conservation(prev, cur, ext_in_delta, ext_out_delta) matches Err(k)
        && k != ConservationKind::PartitionExceedsVault ==> net_flow_fits(ext_in_delta, ext_out_delta)
}

/// Global quote-value conservation over a `(prev, cur)` pair with the step's
/// external inflow and outflow.
pub fn value_conservation(prev: &Observation, cur: &Observation, ext_in_delta: u128, ext_out_delta: u128) -> (r:
    Result<(), Violation>)
    requires
        conservation_renderable(*prev, *cur, ext_in_delta, ext_out_delta),
    ensures
        match step_conservation(*prev, *cur, ext_in_delta, ext_out_delta) {
            Ok(()) => r is Ok,
            Err(kind) => r matches Err(v) && v.requirement@ == conservation_requirement(kind)
                && v.detail@ == conservation_detail(
                kind,
                prev.system.vault,
                cur.system.vault,
                ext_in_delta,
                ext_out_delta,
                cur.system,
            ),
        },
        r is Ok <==> ((cur.system.c_tot + cur.system.insurance + cur.system.backing_provider_earnings <= cur.system.vault
                || cur.system.vault == u128::MAX) && prev.system.vault + ext_in_delta <= u128::MAX
                && prev.system.vault + ext_in_delta == cur.system.vault + ext_out_delta),
        !(cur.system.c_tot + cur.system.insurance + cur.system.backing_provider_earnings <= cur.system.vault
            || cur.system.vault == u128::MAX) ==> (r matches Err(v) && v.requirement@
            == conservation_requirement(ConservationKind::PartitionExceedsVault)),
{
    proof {
        lemma_step_conservation_explicit(*prev, *cur, ext_in_delta, ext_out_delta);
    }
    let prev_vault = prev.system.vault;
    let cur_vault = cur.system.vault;
    let partition = partition_sum(&cur.system);
    match value_conservation_kind(prev_vault, cur_vault, ext_in_delta, ext_out_delta, partition) {
        Ok(()) => Ok(()),
        Err(kind) => Err(
            Violation {
                requirement: kind.requirement(),
                detail: describe_conservation(
                    kind,
                    prev_vault,
                    cur_vault,
                    ext_in_delta,
                    ext_out_delta,
                    &cur.system,
                ),
            },
        ),
    }
}

/// [`value_conservation`] with the step's external flows taken from `cur`.
pub fn check_step_value_conservation(prev: &Observation, cur: &Observation) -> (r: Result<(), Violation>)
    requires
        conservation_renderable(*prev, *cur, cur.ext_in_step, cur.ext_out_step),
    ensures
        match step_conservation(*prev, *cur, cur.ext_in_step, cur.ext_out_step) {
            Ok(()) => r is Ok,
            Err(kind) => r matches Err(v) && v.requirement@ == conservation_requirement(kind)
                && v.detail@ == conservation_detail(
                kind,
                prev.system.vault,
                cur.system.vault,
                cur.ext_in_step,
                cur.ext_out_step,
                cur.system,
            ),
        },
        r is Ok <==> ((cur.system.c_tot + cur.system.insurance + cur.system.backing_provider_earnings <= cur.system.vault
                || cur.system.vault == u128::MAX) && prev.system.vault + cur.ext_in_step <= u128::MAX
                && prev.system.vault + cur.ext_in_step == cur.system.vault + cur.ext_out_step),
        !(cur.system.c_tot + cur.system.insurance + cur.system.backing_provider_earnings <= cur.system.vault
            || cur.system.vault == u128::MAX) ==> (r matches Err(v) && v.requirement@
            == conservation_requirement(ConservationKind::PartitionExceedsVault)),
{
    value_conservation(prev, cur, cur.ext_in_step, cur.ext_out_step)
}

/// The conservation checker is exact: it clears a step iff the partition fits
/// under the post-step vault and `prev_vault + ext_in == cur_vault + ext_out`
/// over unbounded integers with that sum fitting in a `u128`; a reported mint means the vault rose beyond the net
/// inflow (or a side did not fit in a `u128`), a reported leak means it fell
/// beyond the net outflow.
pub proof fn lemma_conservation_exact(
    prev_vault: u128,
    cur_vault: u128,
    ext_in_delta: u128,
    ext_out_delta: u128,
    partition_sum: u128,
)
    ensures
        conservation_spec(prev_vault, cur_vault, ext_in_delta, ext_out_delta, partition_sum) is Ok
            <==> partition_sum <= cur_vault && prev_vault + ext_in_delta <= u128::MAX && prev_vault
            + ext_in_delta == cur_vault + ext_out_delta,
        conservation_spec(prev_vault, cur_vault, ext_in_delta, ext_out_delta, partition_sum)
            == Err::<(), ConservationKind>(ConservationKind::ValueAppeared) ==> cur_vault
            + ext_out_delta > prev_vault + ext_in_delta || prev_vault + ext_in_delta > u128::MAX,
        conservation_spec(prev_vault, cur_vault, ext_in_delta, ext_out_delta, partition_sum)
            == Err::<(), ConservationKind>(ConservationKind::ValueDisappeared) ==> prev_vault
            + ext_in_delta > cur_vault + ext_out_delta,
{
}

/// The conservation checker catches a one-atom mint: when a step with its own
/// recorded flows conserves value, the same step with one more atom in the
/// post-step vault (and nothing else changed) is reported as value appearing.
pub proof fn lemma_conservation_detects_one_atom_mint(
    prev: Observation,
    cur: Observation,
    tampered: Observation,
)
    requires
        step_conservation(prev, cur, cur.ext_in_step, cur.ext_out_step) is Ok,
        cur.system.vault < u128::MAX,
        tampered.system == (SystemObs { vault: (cur.system.vault + 1) as u128, ..cur.system }),
        tampered.ext_in_step == cur.ext_in_step,
        tampered.ext_out_step == cur.ext_out_step,
    ensures
        step_conservation(prev, tampered, tampered.ext_in_step, tampered.ext_out_step) == Err::<
            (),
            ConservationKind,
        >(ConservationKind::ValueAppeared),
{
}

/// The conservation verdict of a step, over the observed fields: it clears the
/// step exactly when the post-step partition `c_tot + insurance +
/// backing_provider_earnings` fits under the post-step vault (a partition
/// summing beyond `u128::MAX` saturates there, so only a full vault holds it),
/// and `prev_vault + ext_in == cur_vault + ext_out` with that sum fitting in a
/// `u128`; a partition that does not fit is reported as a partition breach.
pub proof fn lemma_step_conservation_explicit(
    prev: Observation,
    cur: Observation,
    ext_in_delta: u128,
    ext_out_delta: u128,
)
    ensures
        step_conservation(prev, cur, ext_in_delta, ext_out_delta) is Ok <==> ((cur.system.c_tot + cur.system.insurance + cur.system.backing_provider_earnings <= cur.system.vault
                || cur.system.vault == u128::MAX) && prev.system.vault + ext_in_delta <= u128::MAX
                && prev.system.vault + ext_in_delta == cur.system.vault + ext_out_delta),
        !(cur.system.c_tot + cur.system.insurance + cur.system.backing_provider_earnings
            <= cur.system.vault || cur.system.vault == u128::MAX) ==> step_conservation(
            prev,
            cur,
            ext_in_delta,
            ext_out_delta,
        ) == Err::<(), ConservationKind>(ConservationKind::PartitionExceedsVault),
{
    lemma_conservation_exact(
        prev.system.vault,
        cur.system.vault,
        ext_in_delta,
        ext_out_delta,
        partition_spec(cur.system),
    );
}

/// Total inflow recorded on observations `i..j`.
pub open spec fn inflow_between(obs: Seq<Observation>, i: int, j: int) -> int
    decreases j - i,
{
    if i >= j {
        0
    } else {
        inflow_between(obs, i, j - 1) + obs[j - 1].ext_in_step
    }
}

/// Total outflow recorded on observations `i..j`.
pub open spec fn outflow_between(obs: Seq<Observation>, i: int, j: int) -> int
    decreases j - i,
{
    if i >= j {
        0
    } else {
        outflow_between(obs, i, j - 1) + obs[j - 1].ext_out_step
    }
}

/// Per-step conservation composes over a whole campaign: when every
/// consecutive pair of observations conserves value, the last vault equals the
/// first vault plus all later inflows minus all later outflows.
pub proof fn lemma_conservation_telescopes(obs: Seq<Observation>)
    requires
        obs.len() > 0,
        forall|k: int|
            1 <= k < obs.len() ==> #[trigger] step_conservation(
                obs[k - 1],
                obs[k],
                obs[k].ext_in_step,
                obs[k].ext_out_step,
            ) is Ok,
    ensures
        obs.last().system.vault + outflow_between(obs, 1, obs.len() as int) == obs[0].system.vault
            + inflow_between(obs, 1, obs.len() as int),
    decreases obs.len(),
{
    if obs.len() > 1 {
        let shorter = obs.drop_last();
        assert forall|k: int| 1 <= k < shorter.len() implies #[trigger] step_conservation(
            shorter[k - 1],
            shorter[k],
            shorter[k].ext_in_step,
            shorter[k].ext_out_step,
        ) is Ok by {
            assert(step_conservation(obs[k - 1], obs[k], obs[k].ext_in_step, obs[k].ext_out_step)
                is Ok);
        }
        lemma_conservation_telescopes(shorter);
        lemma_flows_prefix(obs, shorter, 1, shorter.len() as int);
        let n = obs.len() - 1;
        assert(step_conservation(obs[n - 1], obs[n], obs[n].ext_in_step, obs[n].ext_out_step)
            is Ok);
    }
}

proof fn lemma_flows_prefix(obs: Seq<Observation>, shorter: Seq<Observation>, i: int, j: int)
    requires
        obs.len() > 0,
        shorter == obs.drop_last(),
        0 <= i,
        j <= shorter.len(),
    ensures
        inflow_between(obs, i, j) == inflow_between(shorter, i, j),
        outflow_between(obs, i, j) == outflow_between(shorter, i, j),
    decreases j - i,
{
    if i < j {
        lemma_flows_prefix(obs, shorter, i, j - 1);
        assert(obs[j - 1] == shorter[j - 1]);
    }
}

} // verus!
