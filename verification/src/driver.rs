//! Observation vocabulary, campaign builders and trace bookkeeping.
//!
//! The engine itself is driven outside this library: for every action the
//! driver loop performs the engine operation, reads the post-step state into the
//! plain observation types below, and hands both to [`TraceRecorder::record`],
//! which keeps the external-flow ledgers and assembles the [`Trace`].
use vstd::prelude::*;
use crate::oracles::sat_add;
use crate::oracles::conservation::{inflow_between, outflow_between};
use crate::scenario::{Action, Scenario, Side};

verus! {

/// Claim/backing "num" fields are amounts scaled by this; `*_effective_reserved`
/// fields are unscaled atoms.
pub const BOUND_SCALE: u128 = 1_000_000_000_000;

/// One whole position unit (`size_q` of `POS_SCALE` is a position of 1.0).
pub const POS_SCALE: u128 = 1_000_000;

/// The market's activation/target price. Funding cranks keep
/// `effective_price == ACTIVATION_PRICE` so there is no target/effective lag.
pub const ACTIVATION_PRICE: u64 = 100;

/// Per-source-domain observable state of one account.
#[derive(Clone, Copy, Debug, Default, PartialEq, Eq, Structural)]
pub struct DomainObs {
    pub source_claim_market_id: u64,
    pub source_claim_bound_num: u128,
    pub source_claim_liened_num: u128,
    pub source_claim_counterparty_liened_num: u128,
    pub source_claim_insurance_liened_num: u128,
    pub source_lien_effective_reserved: u128,
    pub source_lien_counterparty_backing_num: u128,
    pub source_lien_insurance_backing_num: u128,
    pub source_claim_impaired_num: u128,
    pub source_lien_impaired_effective_reserved: u128,
}

/// Observable state of one account after a step.
#[derive(Clone, Debug, Default, PartialEq, Eq)]
pub struct AccountObs {
    pub capital: u128,
    pub pnl: i128,
    pub fee_credits: i128,
    pub domains: Vec<DomainObs>,
    /// The account's close-progress `quantity_adl_applied_q` ledger value
    /// (`0` until an ADL advances it).
    pub quantity_adl_applied_q: u128,
}

/// Observable market-engine source-credit state of one (asset, side).
#[derive(Clone, Copy, Debug, Default, PartialEq, Eq, Structural)]
pub struct EngineDomainObs {
    pub positive_claim_bound_num: u128,
    pub exact_positive_claim_num: u128,
    pub fresh_reserved_backing_num: u128,
    pub spent_backing_num: u128,
    pub provider_receivable_num: u128,
    pub valid_liened_backing_num: u128,
    pub impaired_liened_backing_num: u128,
    pub insurance_credit_reserved_num: u128,
    pub valid_liened_insurance_num: u128,
    pub impaired_liened_insurance_num: u128,
    pub credit_rate_num: u128,
    pub credit_epoch: u64,
}

/// One market-engine observation: the state of `asset`'s slot on `side`
/// (long = 0, short = 1).
#[derive(Clone, Copy, Debug, Default, PartialEq, Eq, Structural)]
pub struct MarketSideObs {
    pub asset: usize,
    pub side: u8,
    /// The asset's `market_id`.
    pub market_id: u64,
    pub state: EngineDomainObs,
    /// This side's running `insurance_domain_spent`.
    pub insurance_domain_spent: u128,
}

/// Observable result of one accepted liquidation.
#[derive(Clone, Copy, Debug, Default, PartialEq, Eq, Structural)]
pub struct LiquidationObs {
    pub closed_q: u128,
    pub insurance_used: u128,
    pub residual_booked: u128,
    pub explicit_loss: u128,
    pub fee_charged: u128,
}

/// Observable result of one accepted quantity auto-deleverage.
#[derive(Clone, Copy, Debug, Default, PartialEq, Eq, Structural)]
pub struct AdlObs {
    pub closed_q: u128,
    pub opposite_a_after: u128,
    pub reset_started: bool,
    /// The account's post-ADL close-progress `quantity_adl_applied_q`.
    pub quantity_adl_applied_q: u128,
}

/// Group-header quote-atom stores after a step. `vault` is the total real
/// quote-atom balance; `c_tot`, `insurance` and `backing_provider_earnings` are
/// partitions of it; `payout_snapshot` and `explicit_unallocated_loss_total` are
/// claim/loss accounting, not value.
#[derive(Clone, Copy, Debug, Default, PartialEq, Eq, Structural)]
pub struct SystemObs {
    pub vault: u128,
    pub insurance: u128,
    pub c_tot: u128,
    pub payout_snapshot: u128,
    pub explicit_unallocated_loss_total: u128,
    pub backing_provider_earnings: u128,
}

/// `Clone` of std's `Result`, needed by the derived `Clone` of [`Observation`].
/// Nothing is claimed of the copy it returns.
pub assume_specification<T, E>[<Result<T, E> as Clone>::clone](r: &Result<T, E>) -> Result<T, E>
    where T: Clone, E: Clone;

/// Everything observed after one step of a campaign.
#[derive(Clone, Debug)]
pub struct Observation {
    pub step: usize,
    pub action: Action,
    pub result: Result<(), String>,
    pub accounts: Vec<AccountObs>,
    /// Market-engine source-credit state per asset, both sides (long, short).
    pub market_domains: Vec<MarketSideObs>,
    /// Present iff this step was a liquidation the engine accepted.
    pub liquidation: Option<LiquidationObs>,
    /// Present iff this step was an ADL the engine accepted.
    pub adl: Option<AdlObs>,
    pub system: SystemObs,
    /// External quote that flowed in on this step.
    pub ext_in_step: u128,
    /// External quote that flowed out on this step.
    pub ext_out_step: u128,
}

/// The observations of a whole campaign plus the per-account cumulative
/// external-flow ledgers.
#[derive(Clone, Debug)]
pub struct Trace {
    pub observations: Vec<Observation>,
    pub external_in: Vec<u128>,
    pub external_out: Vec<u128>,
}


// ---------------------------------------------------------------------------
// Campaign builders
// ---------------------------------------------------------------------------

/// `2 * slots` funding cranks at `funding_rate_e9`: for each slot `1..=slots`,
/// account 0 then account 1, on asset 0 at the activation price.
pub open spec fn funding_cranks(slots: nat, funding_rate_e9: i128) -> Seq<Action> {
    Seq::new(
        2 * slots,
        |k: int|
            Action::AccrueFunding {
                account: (k % 2) as u8,
                asset: 0,
                now_slot: (k / 2 + 1) as u64,
                effective_price: ACTIVATION_PRICE,
                funding_rate_e9,
            },
    )
}

fn push_funding_cranks(actions: &mut Vec<Action>, slots: u64, funding_rate_e9: i128)
    ensures
        final(actions)@ == old(actions)@ + funding_cranks(slots as nat, funding_rate_e9),
{
    let ghost start = actions@;
    let mut k: u64 = 0;
    while k < slots
        invariant
            k <= slots,
            actions@ == start + funding_cranks(k as nat, funding_rate_e9),
        decreases slots - k,
    {
        let slot = k + 1;
        actions.push(
            Action::AccrueFunding {
                account: 0,
                asset: 0,
                now_slot: slot,
                effective_price: ACTIVATION_PRICE,
                funding_rate_e9,
            },
        );
        actions.push(
            Action::AccrueFunding {
                account: 1,
                asset: 0,
                now_slot: slot,
                effective_price: ACTIVATION_PRICE,
                funding_rate_e9,
            },
        );
        proof {
            let a0 = Action::AccrueFunding {
                account: 0,
                asset: 0,
                now_slot: slot,
                effective_price: ACTIVATION_PRICE,
                funding_rate_e9,
            };
            let a1 = Action::AccrueFunding {
                account: 1,
                asset: 0,
                now_slot: slot,
                effective_price: ACTIVATION_PRICE,
                funding_rate_e9,
            };
            assert(funding_cranks((k + 1) as nat, funding_rate_e9) =~= funding_cranks(
                k as nat,
                funding_rate_e9,
            ).push(a0).push(a1));
            assert(actions@ =~= start + funding_cranks((k + 1) as nat, funding_rate_e9));
        }
        k = k + 1;
    }
}

/// The actions of [`lien_creating_campaign`].
pub open spec fn lien_creating_actions() -> Seq<Action> {
    seq![
        Action::Deposit { account: 1, amount: 1_000_000 },
        Action::SeedSourceClaim { account: 0, asset: 0, claim: 100 },
        Action::Trade { long: 0, short: 1, asset: 0, size_q: 1_000_000, exec_price: 100, fee_bps: 0 },
    ]
}

/// A campaign that drives the engine into a state with a non-zero source-credit
/// lien: a counterparty deposit, a seeded source claim of 100 on asset 0's long
/// domain for the zero-capital account 0, and a risk-increasing open of 1.0 at
/// the activation price, whose whole initial margin must be drawn as a lien.
pub fn lien_creating_campaign() -> (s: Scenario)
    ensures
        s.n_markets == 1,
        s.n_accounts == 2,
        s.actions@ == lien_creating_actions(),
{
    Scenario {
        n_markets: 1,
        n_accounts: 2,
        actions: vec![
            Action::Deposit { account: 1, amount: 1_000_000 },
            Action::SeedSourceClaim { account: 0, asset: 0, claim: 100 },
            Action::Trade {
                long: 0,
                short: 1,
                asset: 0,
                size_q: 1_000_000,
                exec_price: 100,
                fee_bps: 0,
            },
        ],
    }
}

/// The actions of [`earned_lien_campaign`].
pub open spec fn earned_lien_actions() -> Seq<Action> {
    seq![
        Action::Deposit { account: 1, amount: 100_000_000 },
        Action::Deposit { account: 0, amount: 10_000 },
        Action::Trade {
            long: 0,
            short: 1,
            asset: 0,
            size_q: (100 * POS_SCALE) as u128,
            exec_price: ACTIVATION_PRICE,
            fee_bps: 0,
        },
        Action::ProviderPostClaim { asset: 0, side: 1, claim: 1_000 },
    ] + funding_cranks(6, -10_000i128) + seq![
        Action::Trade {
            long: 0,
            short: 1,
            asset: 0,
            size_q: POS_SCALE,
            exec_price: ACTIVATION_PRICE,
            fee_bps: 0,
        },
    ]
}

/// A campaign that earns the lien precondition through engine operations: a
/// real 100.0 long opened with exactly its initial margin, a provider-posted
/// claim on the short domain (to which a long's funding gain is attributed),
/// six slots of negative-rate funding cranks on both legs at the activation
/// price, then a 1.0 risk-increasing add that must draw a lien against the
/// earned PnL.
pub fn earned_lien_campaign() -> (s: Scenario)
    ensures
        s.n_markets == 1,
        s.n_accounts == 2,
        s.actions@ == earned_lien_actions(),
{
    let short_side: u8 = 1;
    let p = ACTIVATION_PRICE;
    let funding_rate_e9: i128 = -10_000;
    let mut actions = vec![
        Action::Deposit { account: 1, amount: 100_000_000 },
        Action::Deposit { account: 0, amount: 10_000 },
        Action::Trade { long: 0, short: 1, asset: 0, size_q: 100 * POS_SCALE, exec_price: p, fee_bps: 0 },
        Action::ProviderPostClaim { asset: 0, side: short_side, claim: 1_000 },
    ];
    push_funding_cranks(&mut actions, 6, funding_rate_e9);
    actions.push(
        Action::Trade { long: 0, short: 1, asset: 0, size_q: POS_SCALE, exec_price: p, fee_bps: 0 },
    );
    assert(actions@ =~= earned_lien_actions());
    Scenario { n_markets: 1, n_accounts: 2, actions }
}

/// The actions of [`funding_leak_campaign`].
pub open spec fn funding_leak_actions(size_q: u128, slots: nat) -> Seq<Action> {
    seq![
        Action::Deposit { account: 0, amount: 1_000_000_000 },
        Action::Deposit { account: 1, amount: 1_000_000_000 },
        Action::Trade { long: 0, short: 1, asset: 0, size_q, exec_price: ACTIVATION_PRICE, fee_bps: 0 },
        Action::ProviderPostClaim { asset: 0, side: 1, claim: 1_000_000_000 },
    ] + funding_cranks(slots, -9_999i128)
}

/// A funding-only campaign: two over-funded accounts open a matched position of
/// `size_q` at the activation price, a provider backs the receiver (short)
/// domain, and `slots` epochs each crank both legs at a negative funding rate.
pub fn funding_leak_campaign(size_q: u128, slots: u64) -> (s: Scenario)
    ensures
        s.n_markets == 1,
        s.n_accounts == 2,
        s.actions@ == funding_leak_actions(size_q, slots as nat),
{
    let p = ACTIVATION_PRICE;
    let funding_rate_e9: i128 = -9_999;
    let big: u128 = 1_000_000_000;
    let mut actions = vec![
        Action::Deposit { account: 0, amount: big },
        Action::Deposit { account: 1, amount: big },
        Action::Trade { long: 0, short: 1, asset: 0, size_q, exec_price: p, fee_bps: 0 },
        Action::ProviderPostClaim { asset: 0, side: 1, claim: 1_000_000_000 },
    ];
    push_funding_cranks(&mut actions, slots, funding_rate_e9);
    Scenario { n_markets: 1, n_accounts: 2, actions }
}

/// The actions of [`convert_realization_campaign`].
pub open spec fn convert_realization_actions() -> Seq<Action> {
    let size_q = (100 * POS_SCALE + 1) as u128;
    seq![
        Action::Deposit { account: 0, amount: 1_000_000_000 },
        Action::Deposit { account: 1, amount: 1_000_000_000 },
        Action::Trade { long: 0, short: 1, asset: 0, size_q, exec_price: ACTIVATION_PRICE, fee_bps: 0 },
        Action::ProviderPostClaim { asset: 0, side: 1, claim: 1_000_000_000 },
    ] + funding_cranks(6, -9_999i128) + seq![
        Action::Trade { long: 1, short: 0, asset: 0, size_q, exec_price: ACTIVATION_PRICE, fee_bps: 0 },
        Action::ReleaseLiens { account: 0 },
        Action::Crank { account: 0, asset: 0, now_slot: 7, effective_price: ACTIVATION_PRICE },
        Action::ConvertReleasedPnl { account: 0 },
        Action::Withdraw { account: 0, amount: 300 },
    ]
}

/// A campaign through the PnL-to-capital realization path: a fractional-basis
/// long earns six slots of funding PnL, flattens its leg, releases its liens,
/// re-certifies at slot 7, converts its released PnL into capital and
/// withdraws 300 of it.
pub fn convert_realization_campaign() -> (s: Scenario)
    ensures
        s.n_markets == 1,
        s.n_accounts == 2,
        s.actions@ == convert_realization_actions(),
{
    let p = ACTIVATION_PRICE;
    let size_q = 100 * POS_SCALE + 1;
    let big: u128 = 1_000_000_000;
    let mut actions = vec![
        Action::Deposit { account: 0, amount: big },
        Action::Deposit { account: 1, amount: big },
        Action::Trade { long: 0, short: 1, asset: 0, size_q, exec_price: p, fee_bps: 0 },
        Action::ProviderPostClaim { asset: 0, side: 1, claim: big },
    ];
    push_funding_cranks(&mut actions, 6, -9_999);
    actions.push(Action::Trade { long: 1, short: 0, asset: 0, size_q, exec_price: p, fee_bps: 0 });
    actions.push(Action::ReleaseLiens { account: 0 });
    actions.push(Action::Crank { account: 0, asset: 0, now_slot: 7, effective_price: p });
    actions.push(Action::ConvertReleasedPnl { account: 0 });
    actions.push(Action::Withdraw { account: 0, amount: 300 });
    assert(actions@ =~= convert_realization_actions());
    Scenario { n_markets: 1, n_accounts: 2, actions }
}

/// A campaign that seeds an underwater long on an unfunded bankruptcy domain
/// and liquidates its whole 1.0 leg.
pub fn liquidation_campaign() -> (s: Scenario)
    ensures
        s.n_markets == 1,
        s.n_accounts == 1,
        s.actions@ == seq![
            Action::SeedUnderwaterPosition { account: 0, asset: 0 },
            Action::Liquidate { account: 0, asset: 0, close_q: POS_SCALE },
        ],
{
    Scenario {
        n_markets: 1,
        n_accounts: 1,
        actions: vec![
            Action::SeedUnderwaterPosition { account: 0, asset: 0 },
            Action::Liquidate { account: 0, asset: 0, close_q: POS_SCALE },
        ],
    }
}

/// A campaign that seeds an underwater long whose bankruptcy domain is funded
/// with 5 atoms and liquidates its whole 1.0 leg.
pub fn funded_liquidation_campaign() -> (s: Scenario)
    ensures
        s.n_markets == 1,
        s.n_accounts == 1,
        s.actions@ == seq![
            Action::SeedUnderwaterPositionFunded { account: 0, asset: 0, domain_budget: 5 },
            Action::Liquidate { account: 0, asset: 0, close_q: POS_SCALE },
        ],
{
    Scenario {
        n_markets: 1,
        n_accounts: 1,
        actions: vec![
            Action::SeedUnderwaterPositionFunded { account: 0, asset: 0, domain_budget: 5 },
            Action::Liquidate { account: 0, asset: 0, close_q: POS_SCALE },
        ],
    }
}

/// A campaign that seeds a finalized, ADL-eligible close with a bankrupt long
/// and applies a quantity ADL of the whole 1.0 leg.
pub fn adl_campaign() -> (s: Scenario)
    ensures
        s.n_markets == 1,
        s.n_accounts == 1,
        s.actions@ == seq![
            Action::SeedFinalizedClose { account: 0, asset: 0, bankrupt_side: 0 },
            Action::ApplyAdl { account: 0, asset: 0, bankrupt_side: 0, close_q: POS_SCALE },
        ],
{
    Scenario {
        n_markets: 1,
        n_accounts: 1,
        actions: vec![
            Action::SeedFinalizedClose { account: 0, asset: 0, bankrupt_side: 0 },
            Action::ApplyAdl { account: 0, asset: 0, bankrupt_side: 0, close_q: POS_SCALE },
        ],
    }
}

/// The action accrues funding at a non-zero rate.
pub open spec fn accrues_funding(a: Action) -> bool {
    a matches Action::AccrueFunding { funding_rate_e9, .. } && funding_rate_e9 != 0
}

/// True iff the scenario accrues funding at a non-zero rate, so the engine
/// must be configured to permit funding accrual.
pub fn scenario_needs_funding(s: &Scenario) -> (r: bool)
    ensures
        r <==> exists|i: int| 0 <= i < s.actions@.len() && #[trigger] accrues_funding(s.actions@[i]),
{
    let mut i: usize = 0;
    while i < s.actions.len()
        invariant
            i <= s.actions@.len(),
            forall|j: int| 0 <= j < i ==> !#[trigger] accrues_funding(s.actions@[j]),
        decreases s.actions@.len() - i,
    {
        if let Action::AccrueFunding { funding_rate_e9, .. } = s.actions[i] {
            if funding_rate_e9 != 0 {
                assert(accrues_funding(s.actions@[i as int]));
                return true;
            }
        }
        i = i + 1;
    }
    false
}


// ---------------------------------------------------------------------------
// Step arithmetic of the engine adapter
// ---------------------------------------------------------------------------

/// The source-credit domain index of `(asset, side)`: `asset * 2 + side`.
pub fn source_domain(asset: u8, side: u8) -> (r: usize)
    ensures
        r == asset * 2 + side,
{
    (asset as usize) * 2 + (side as usize)
}

/// A claim in atoms scaled to a claim "num": `claim * BOUND_SCALE`, or `None`
/// when that does not fit in a `u128`.
pub fn scaled_claim(claim: u128) -> (r: Option<u128>)
    ensures
        r == (if claim * BOUND_SCALE <= u128::MAX {
            Some((claim * BOUND_SCALE) as u128)
        } else {
            None::<u128>
        }),
{
    claim.checked_mul(BOUND_SCALE)
}

/// The quote atoms an underwater-position seed injects into the vault: a base
/// of 50 plus the funded domain budget, or `None` when that does not fit.
pub fn underwater_seed_extra(domain_budget: u128) -> (r: Option<u128>)
    ensures
        r == (if 50 + domain_budget <= u128::MAX {
            Some((50 + domain_budget) as u128)
        } else {
            None::<u128>
        }),
{
    50u128.checked_add(domain_budget)
}

/// `a + b` over `i128`, saturating at the bounds.
pub open spec fn sat_add_i128(a: int, b: int) -> int {
    if a + b > i128::MAX {
        i128::MAX as int
    } else if a + b < i128::MIN {
        i128::MIN as int
    } else {
        a + b
    }
}

fn saturating_add_i128(a: i128, b: i128) -> (r: i128)
    ensures
        r == sat_add_i128(a as int, b as int),
{
    if b >= 0 {
        if a > i128::MAX - b {
            i128::MAX
        } else {
            a + b
        }
    } else {
        if a < i128::MIN - b {
            i128::MIN
        } else {
            a + b
        }
    }
}

/// The account and group totals a seeded source claim touches.
#[derive(Clone, Copy, Debug, PartialEq, Eq, Structural)]
pub struct ClaimTotals {
    /// The account's PnL.
    pub pnl: i128,
    /// The account domain's `source_claim_bound_num`.
    pub bound_num: u128,
    /// The group's `pnl_pos_tot`.
    pub pnl_pos_tot: u128,
    /// The group's `pnl_pos_bound_tot_num`.
    pub pnl_pos_bound_tot_num: u128,
    /// The group's `pnl_pos_bound_tot`.
    pub pnl_pos_bound_tot: u128,
}

/// The totals after seeding a claim of `claim` atoms (`claim_num` scaled):
/// every total saturating-raised by the claim (the bound totals by the scaled
/// claim), or `None` when the claim does not fit in an `i128` PnL.
pub fn seed_claim_totals(cur: ClaimTotals, claim: u128, claim_num: u128) -> (r: Option<ClaimTotals>)
    ensures
        claim > i128::MAX ==> r is None,
        claim <= i128::MAX ==> r == Some(
            ClaimTotals {
                pnl: sat_add_i128(cur.pnl as int, claim as int) as i128,
                bound_num: sat_add(cur.bound_num as int, claim_num as int) as u128,
                pnl_pos_tot: sat_add(cur.pnl_pos_tot as int, claim as int) as u128,
                pnl_pos_bound_tot_num: sat_add(cur.pnl_pos_bound_tot_num as int, claim_num as int)
                    as u128,
                pnl_pos_bound_tot: sat_add(cur.pnl_pos_bound_tot as int, claim as int) as u128,
            },
        ),
{
    if claim > i128::MAX as u128 {
        return None;
    }
    let claim_i128 = claim as i128;
    Some(
        ClaimTotals {
            pnl: saturating_add_i128(cur.pnl, claim_i128),
            bound_num: cur.bound_num.saturating_add(claim_num),
            pnl_pos_tot: cur.pnl_pos_tot.saturating_add(claim),
            pnl_pos_bound_tot_num: cur.pnl_pos_bound_tot_num.saturating_add(claim_num),
            pnl_pos_bound_tot: cur.pnl_pos_bound_tot.saturating_add(claim),
        },
    )
}

/// The group and account quantities an underwater-position seed touches.
#[derive(Clone, Copy, Debug, PartialEq, Eq, Structural)]
pub struct UnderwaterState {
    pub vault: u128,
    pub insurance: u128,
    pub negative_pnl_account_count: u64,
    /// The account's PnL.
    pub pnl: i128,
}

/// The state after seeding an underwater position that injects `extra` quote
/// atoms: vault and insurance saturating-raised by `extra`, one more
/// negative-PnL account (saturating), and the account's PnL lowered by 5
/// (saturating).
pub fn underwater_seed_state(cur: UnderwaterState, extra: u128) -> (r: UnderwaterState)
    ensures
        r == (UnderwaterState {
            vault: sat_add(cur.vault as int, extra as int) as u128,
            insurance: sat_add(cur.insurance as int, extra as int) as u128,
            negative_pnl_account_count: if cur.negative_pnl_account_count == u64::MAX {
                u64::MAX
            } else {
                (cur.negative_pnl_account_count + 1) as u64
            },
            pnl: sat_add_i128(cur.pnl as int, -5) as i128,
        }),
{
    UnderwaterState {
        vault: cur.vault.saturating_add(extra),
        insurance: cur.insurance.saturating_add(extra),
        negative_pnl_account_count: if cur.negative_pnl_account_count == u64::MAX {
            u64::MAX
        } else {
            cur.negative_pnl_account_count + 1
        },
        pnl: saturating_add_i128(cur.pnl, -5),
    }
}

/// The last slot of a seeded close window: `current_slot + 10`, saturating.
pub fn close_deadline(current_slot: u64) -> (r: u64)
    ensures
        r == (if current_slot + 10 > u64::MAX { u64::MAX as int } else { current_slot + 10 }),
{
    if current_slot > u64::MAX - 10 {
        u64::MAX
    } else {
        current_slot + 10
    }
}

/// A scenario side byte as a side: `0` is long, anything else short.
pub fn side_from_u8(side: u8) -> (r: Side)
    ensures
        r == (if side == 0 { Side::Long } else { Side::Short }),
{
    if side == 0 {
        Side::Long
    } else {
        Side::Short
    }
}

/// The other side.
pub fn opposite_side(side: Side) -> (r: Side)
    ensures
        r == (match side {
            Side::Long => Side::Short,
            Side::Short => Side::Long,
        }),
{
    match side {
        Side::Long => Side::Short,
        Side::Short => Side::Long,
    }
}

/// The per-slot stock readings summed into [`SystemObs`].
#[derive(Clone, Copy, Debug, Default, PartialEq, Eq, Structural)]
pub struct SlotStocks {
    /// Long-side backing provider utilization-fee earnings.
    pub backing_earnings_long: u128,
    /// Short-side backing provider utilization-fee earnings.
    pub backing_earnings_short: u128,
    /// Long-side explicit unallocated loss.
    pub explicit_loss_long: u128,
    /// Short-side explicit unallocated loss.
    pub explicit_loss_short: u128,
}

/// Saturating sums over the first `n` slots of (backing provider earnings,
/// explicit unallocated loss), adding each slot's long side then short side.
pub open spec fn stock_totals(slots: Seq<SlotStocks>, n: int) -> (int, int)
    decreases n,
{
    if n <= 0 {
        (0, 0)
    } else {
        let prior = stock_totals(slots, n - 1);
        let s = slots[n - 1];
        (
            sat_add(sat_add(prior.0, s.backing_earnings_long as int), s.backing_earnings_short as int),
            sat_add(sat_add(prior.1, s.explicit_loss_long as int), s.explicit_loss_short as int),
        )
    }
}

/// The group's backing provider earnings and explicit unallocated loss,
/// summed (saturating) over every asset slot.
pub fn system_stock_totals(slots: &[SlotStocks]) -> (r: (u128, u128))
    ensures
        r.0 == stock_totals(slots@, slots@.len() as int).0,
        r.1 == stock_totals(slots@, slots@.len() as int).1,
{
    let mut backing: u128 = 0;
    let mut loss: u128 = 0;
    let mut i: usize = 0;
    while i < slots.len()
        invariant
            i <= slots@.len(),
            backing == stock_totals(slots@, i as int).0,
            loss == stock_totals(slots@, i as int).1,
        decreases slots@.len() - i,
    {
        let s = &slots[i];
        backing = backing.saturating_add(s.backing_earnings_long).saturating_add(s.backing_earnings_short);
        loss = loss.saturating_add(s.explicit_loss_long).saturating_add(s.explicit_loss_short);
        i = i + 1;
    }
    (backing, loss)
}

/// Append one asset's two market sides, long (side 0) then short (side 1),
/// each with its source-credit state and running insurance spend.
pub fn push_market_sides(
    out: &mut Vec<MarketSideObs>,
    asset: usize,
    market_id: u64,
    long: (EngineDomainObs, u128),
    short: (EngineDomainObs, u128),
)
    ensures
        final(out)@ == old(out)@.push(
            MarketSideObs { asset, side: 0, market_id, state: long.0, insurance_domain_spent: long.1 },
        ).push(
            MarketSideObs {
                asset,
                side: 1,
                market_id,
                state: short.0,
                insurance_domain_spent: short.1,
            },
        ),
{
    out.push(MarketSideObs { asset, side: 0, market_id, state: long.0, insurance_domain_spent: long.1 });
    out.push(MarketSideObs { asset, side: 1, market_id, state: short.0, insurance_domain_spent: short.1 });
}

// ---------------------------------------------------------------------------
// Trace bookkeeping
// ---------------------------------------------------------------------------

/// Sum of the first `n` entries of a ledger.
pub open spec fn ledger_prefix(v: Seq<u128>, n: int) -> int
    decreases n,
{
    if n <= 0 {
        0
    } else {
        ledger_prefix(v, n - 1) + v[n - 1]
    }
}

/// Sum of a ledger.
pub open spec fn ledger_total(v: Seq<u128>) -> int {
    ledger_prefix(v, v.len() as int)
}

proof fn lemma_ledger_prefix_mono(v: Seq<u128>, i: int, j: int)
    requires
        0 <= i <= j <= v.len(),
    ensures
        ledger_prefix(v, i) <= ledger_prefix(v, j),
    decreases j - i,
{
    if i < j {
        lemma_ledger_prefix_mono(v, i, j - 1);
    }
}

proof fn lemma_ledger_update(v: Seq<u128>, a: int, x: u128, n: int)
    requires
        0 <= a < v.len(),
        0 <= n <= v.len(),
    ensures
        ledger_prefix(v.update(a, x), n) == ledger_prefix(v, n) + (if a < n {
            x - v[a]
        } else {
            0
        }),
    decreases n,
{
    if n > 0 {
        lemma_ledger_update(v, a, x, n - 1);
    }
}

/// The sum of a ledger, or `None` when it does not fit in a `u128`.
fn ledger_sum(v: &Vec<u128>) -> (r: Option<u128>)
    ensures
        r matches Some(x) ==> x == ledger_total(v@),
        r is None ==> ledger_total(v@) > u128::MAX,
{
    let mut total: u128 = 0;
    let mut i: usize = 0;
    while i < v.len()
        invariant
            i <= v@.len(),
            total == ledger_prefix(v@, i as int),
        decreases v@.len() - i,
    {
        match total.checked_add(v[i]) {
            Some(t) => total = t,
            None => {
                proof {
                    lemma_ledger_prefix_mono(v@, i + 1, v@.len() as int);
                }
                return None;
            },
        }
        i = i + 1;
    }
    Some(total)
}

/// The external inflow an accepted step credits, as `(account, amount)`:
/// a deposit's amount, or the quote atoms an underwater seed injects.
pub open spec fn step_inflow(a: Action) -> Option<(u8, int)> {
    match a {
        Action::Deposit { account, amount } => Some((account, amount as int)),
        Action::SeedUnderwaterPosition { account, .. } => Some((account, 50)),
        Action::SeedUnderwaterPositionFunded { account, domain_budget, .. } => if 50 + domain_budget
            <= u128::MAX {
            Some((account, 50 + domain_budget))
        } else {
            None
        },
        _ => None,
    }
}

/// The external outflow an accepted step debits, as `(account, amount)`: a
/// withdrawal's amount.
pub open spec fn step_outflow(a: Action) -> Option<(u8, int)> {
    match a {
        Action::Withdraw { account, amount } => Some((account, amount as int)),
        _ => None,
    }
}

/// A ledger after crediting `flow` (saturating) when the step was accepted.
pub open spec fn credited(v: Seq<u128>, flow: Option<(u8, int)>, accepted: bool) -> Seq<u128> {
    if accepted && flow is Some {
        let (a, x) = flow->Some_0;
        v.update(a as int, sat_add(v[a as int] as int, x) as u128)
    } else {
        v
    }
}

/// The account a flow credits is within the ledger.
pub open spec fn flow_in_range(flow: Option<(u8, int)>, n: int) -> bool {
    flow matches Some((a, _)) ==> a < n
}

/// A trace's per-step external flows are those of its ledgers: observation `k`
/// is step `k`, and the per-step inflows (outflows) sum to the total of the
/// per-account inflow (outflow) ledger.
pub open spec fn trace_consistent(t: Trace) -> bool {
    &&& t.external_in@.len() == t.external_out@.len()
    &&& forall|k: int| 0 <= k < t.observations@.len() ==> #[trigger] t.observations@[k].step == k
    &&& inflow_between(t.observations@, 0, t.observations@.len() as int) == ledger_total(
        t.external_in@,
    )
    &&& outflow_between(t.observations@, 0, t.observations@.len() as int) == ledger_total(
        t.external_out@,
    )
}

/// Assembles a [`Trace`] step by step while the engine is driven elsewhere:
/// each step's engine result and post-step state are recorded together with the
/// external flow the step moved.
pub struct TraceRecorder {
    trace: Trace,
}

impl TraceRecorder {
    /// The trace recorded so far.
    pub closed spec fn view_trace(&self) -> Trace {
        self.trace
    }

    /// An empty trace with zeroed inflow and outflow ledgers for `n_accounts`
    /// accounts.
    pub fn new(n_accounts: u8) -> (r: TraceRecorder)
        ensures
            r.view_trace().observations@.len() == 0,
            r.view_trace().external_in@ == Seq::new(n_accounts as nat, |i: int| 0u128),
            r.view_trace().external_out@ == Seq::new(n_accounts as nat, |i: int| 0u128),
            trace_consistent(r.view_trace()),
    {
        let mut external_in: Vec<u128> = Vec::new();
        let mut external_out: Vec<u128> = Vec::new();
        let mut i: u8 = 0;
        while i < n_accounts
            invariant
                i <= n_accounts,
                external_in@ == Seq::new(i as nat, |k: int| 0u128),
                external_out@ == Seq::new(i as nat, |k: int| 0u128),
            decreases n_accounts - i,
        {
            external_in.push(0);
            external_out.push(0);
            proof {
                assert(external_in@ =~= Seq::new((i + 1) as nat, |k: int| 0u128));
                assert(external_out@ =~= Seq::new((i + 1) as nat, |k: int| 0u128));
            }
            i = i + 1;
        }
        proof {
            lemma_zero_ledger(n_accounts as nat);
        }
        TraceRecorder { trace: Trace { observations: Vec::new(), external_in, external_out } }
    }

    /// Recording an `accepted` (or rejected) `action` keeps every ledger total
    /// within a `u128`.
    pub open spec fn can_record_spec(&self, action: Action, accepted: bool) -> bool {
        &&& flow_in_range(step_inflow(action), self.view_trace().external_in@.len() as int)
        &&& flow_in_range(step_outflow(action), self.view_trace().external_out@.len() as int)
        &&& ledger_total(self.view_trace().external_in@) <= u128::MAX
        &&& ledger_total(self.view_trace().external_out@) <= u128::MAX
        &&& ledger_total(
            credited(self.view_trace().external_in@, step_inflow(action), accepted),
        ) <= u128::MAX
        &&& ledger_total(
            credited(self.view_trace().external_out@, step_outflow(action), accepted),
        ) <= u128::MAX
    }

    /// Whether [`TraceRecorder::record`] may record this step.
    pub fn can_record(&self, action: Action, accepted: bool) -> (r: bool)
        requires
            trace_consistent(self.view_trace()),
        ensures
            r == self.can_record_spec(action, accepted),
    {
        let n_in = self.trace.external_in.len();
        let n_out = self.trace.external_out.len();
        let inflow = step_inflow_of(action);
        let outflow = step_outflow_of(action);
        if let Some((a, _)) = inflow {
            if a as usize >= n_in {
                return false;
            }
        }
        if let Some((a, _)) = outflow {
            if a as usize >= n_out {
                return false;
            }
        }
        if ledger_sum(&self.trace.external_in).is_none() || ledger_sum(&self.trace.external_out).is_none() {
            return false;
        }
        let mut ins = self.trace.external_in.clone();
        let mut outs = self.trace.external_out.clone();
        credit(&mut ins, inflow, accepted);
        credit(&mut outs, outflow, accepted);
        ledger_sum(&ins).is_some() && ledger_sum(&outs).is_some()
    }

    /// Record one step: credit the external flow of an accepted step to its
    /// account's ledger (saturating), and append the step's observation, whose
    /// per-step inflow (outflow) is the rise of the inflow (outflow) ledger total.
    pub fn record(
        &mut self,
        action: Action,
        result: Result<(), String>,
        accounts: Vec<AccountObs>,
        market_domains: Vec<MarketSideObs>,
        liquidation: Option<LiquidationObs>,
        adl: Option<AdlObs>,
        system: SystemObs,
    )
        requires
            trace_consistent(old(self).view_trace()),
            old(self).can_record_spec(action, result is Ok),
        ensures
            trace_consistent(final(self).view_trace()),
            final(self).view_trace().external_in@ == credited(
                old(self).view_trace().external_in@,
                step_inflow(action),
                result is Ok,
            ),
            final(self).view_trace().external_out@ == credited(
                old(self).view_trace().external_out@,
                step_outflow(action),
                result is Ok,
            ),
            final(self).view_trace().observations@ == old(self).view_trace().observations@.push(
                (Observation {
                    step: old(self).view_trace().observations@.len() as usize,
                    action,
                    result,
                    accounts,
                    market_domains,
                    liquidation,
                    adl,
                    system,
                    ext_in_step: (ledger_total(final(self).view_trace().external_in@) - ledger_total(
                        old(self).view_trace().external_in@,
                    )) as u128,
                    ext_out_step: (ledger_total(final(self).view_trace().external_out@)
                        - ledger_total(old(self).view_trace().external_out@)) as u128,
                }),
            ),
        result is Ok ==> match action {
            Action::Deposit { account, amount } => old(self).view_trace().external_in@[account as int] + amount <= u128::MAX ==> (final(self).view_trace().external_in@
                == old(self).view_trace().external_in@.update(account as int, (old(self).view_trace().external_in@[account as int] + amount) as u128) && final(self).view_trace().observations@.last().ext_in_step
                == amount),
            Action::SeedUnderwaterPosition { account, .. } => old(self).view_trace().external_in@[account as int] + 50 <= u128::MAX ==> (final(self).view_trace().external_in@
                == old(self).view_trace().external_in@.update(account as int, (old(self).view_trace().external_in@[account as int] + 50) as u128) && final(self).view_trace().observations@.last().ext_in_step == 50),
            Action::SeedUnderwaterPositionFunded { account, domain_budget, .. } => old(self).view_trace().external_in@[account as int]
                + 50 + domain_budget <= u128::MAX ==> (final(self).view_trace().external_in@ == old(self).view_trace().external_in@.update(
                account as int,
                (old(self).view_trace().external_in@[account as int] + 50 + domain_budget) as u128,
            ) && final(self).view_trace().observations@.last().ext_in_step == 50 + domain_budget),
            _ => final(self).view_trace().external_in@ == old(self).view_trace().external_in@ && final(self).view_trace().observations@.last().ext_in_step == 0,
        },
        result is Ok ==> match action {
            Action::Withdraw { account, amount } => old(self).view_trace().external_out@[account as int] + amount <= u128::MAX ==> (final(self).view_trace().external_out@
                == old(self).view_trace().external_out@.update(account as int, (old(self).view_trace().external_out@[account as int] + amount) as u128) && final(self).view_trace().observations@.last().ext_out_step
                == amount),
            _ => final(self).view_trace().external_out@ == old(self).view_trace().external_out@ && final(self).view_trace().observations@.last().ext_out_step == 0,
        },
        result is Err ==> final(self).view_trace().external_in@ == old(self).view_trace().external_in@ && final(self).view_trace().external_out@ == old(self).view_trace().external_out@ && final(self).view_trace().observations@.last().ext_in_step == 0 && final(self).view_trace().observations@.last().ext_out_step == 0,
    {
        let accepted = result.is_ok();
        let ghost old_in = self.trace.external_in@;
        let ghost old_out = self.trace.external_out@;
        let in_before = ledger_sum(&self.trace.external_in).unwrap();
        let out_before = ledger_sum(&self.trace.external_out).unwrap();
        credit(&mut self.trace.external_in, step_inflow_of(action), accepted);
        credit(&mut self.trace.external_out, step_outflow_of(action), accepted);
        let in_after = ledger_sum(&self.trace.external_in).unwrap();
        let out_after = ledger_sum(&self.trace.external_out).unwrap();
        proof {
            lemma_credited_grows(old_in, step_inflow(action), accepted);
            lemma_credited_grows(old_out, step_outflow(action), accepted);
            lemma_recorded_inflow(old_in, action);
            lemma_recorded_outflow(old_out, action);
        }
        let step = self.trace.observations.len();
        let ghost old_obs = self.trace.observations@;
        self.trace.observations.push(
            Observation {
                step,
                action,
                result,
                accounts,
                market_domains,
                liquidation,
                adl,
                system,
                ext_in_step: in_after.saturating_sub(in_before),
                ext_out_step: out_after.saturating_sub(out_before),
            },
        );
        proof {
            let obs = self.trace.observations@;
            assert(obs.drop_last() =~= old_obs);
            lemma_flows_extend(obs);
        }
    }

    /// The recorded trace.
    pub fn finish(self) -> (t: Trace)
        ensures
            t == self.view_trace(),
    {
        self.trace
    }
}

proof fn lemma_zero_ledger(n: nat)
    ensures
        ledger_total(Seq::new(n, |i: int| 0u128)) == 0,
{
    let v = Seq::new(n, |i: int| 0u128);
    assert forall|k: int| 0 <= k <= n implies ledger_prefix(v, k) == 0 by {
        lemma_zero_prefix(v, k);
    }
}

proof fn lemma_zero_prefix(v: Seq<u128>, k: int)
    requires
        0 <= k <= v.len(),
        forall|i: int| 0 <= i < v.len() ==> v[i] == 0,
    ensures
        ledger_prefix(v, k) == 0,
    decreases k,
{
    if k > 0 {
        lemma_zero_prefix(v, k - 1);
    }
}

proof fn lemma_credited_grows(v: Seq<u128>, flow: Option<(u8, int)>, accepted: bool)
    requires
        flow_in_range(flow, v.len() as int),
        flow matches Some((_, x)) ==> x >= 0,
    ensures
        ledger_total(credited(v, flow, accepted)) >= ledger_total(v),
{
    if accepted && flow is Some {
        let (a, x) = flow->Some_0;
        lemma_ledger_update(v, a as int, sat_add(v[a as int] as int, x) as u128, v.len() as int);
    }
}

proof fn lemma_flows_extend(obs: Seq<Observation>)
    requires
        obs.len() > 0,
    ensures
        inflow_between(obs, 0, obs.len() as int) == inflow_between(obs.drop_last(), 0, obs.len() - 1)
            + obs.last().ext_in_step,
        outflow_between(obs, 0, obs.len() as int) == outflow_between(
            obs.drop_last(),
            0,
            obs.len() - 1,
        ) + obs.last().ext_out_step,
{
    lemma_between_prefix(obs, obs.drop_last(), obs.len() - 1);
}

proof fn lemma_between_prefix(obs: Seq<Observation>, shorter: Seq<Observation>, j: int)
    requires
        obs.len() > 0,
        shorter == obs.drop_last(),
        0 <= j <= shorter.len(),
    ensures
        inflow_between(obs, 0, j) == inflow_between(shorter, 0, j),
        outflow_between(obs, 0, j) == outflow_between(shorter, 0, j),
    decreases j,
{
    if j > 0 {
        lemma_between_prefix(obs, shorter, j - 1);
        assert(obs[j - 1] == shorter[j - 1]);
    }
}

/// The external inflow an accepted step records: a deposit credits its amount,
/// an underwater seed the 50 quote atoms it injects, a funded underwater seed
/// those 50 plus its domain budget, each to the acting account's ledger (when
/// the sum fits in a `u128`); any other step credits nothing. A rejected step
/// credits nothing.
pub proof fn lemma_recorded_inflow(v: Seq<u128>, action: Action)
    requires
        flow_in_range(step_inflow(action), v.len() as int),
    ensures
        match action {
            Action::Deposit { account, amount } => v[account as int] + amount <= u128::MAX ==> (credited(v, step_inflow(action), true)
                == v.update(account as int, (v[account as int] + amount) as u128) && ledger_total(credited(v, step_inflow(action), true))
                == ledger_total(v) + amount),
            Action::SeedUnderwaterPosition { account, .. } => v[account as int] + 50 <= u128::MAX ==> (credited(v, step_inflow(action), true)
                == v.update(account as int, (v[account as int] + 50) as u128) && ledger_total(credited(v, step_inflow(action), true))
                == ledger_total(v) + 50),
            Action::SeedUnderwaterPositionFunded { account, domain_budget, .. } => v[account as int] + 50
                + domain_budget <= u128::MAX ==> (credited(v, step_inflow(action), true) == v.update(
                account as int,
                (v[account as int] + 50 + domain_budget) as u128,
            ) && ledger_total(credited(v, step_inflow(action), true)) == ledger_total(v) + 50 + domain_budget),
            _ => credited(v, step_inflow(action), true) == v,
        },
        credited(v, step_inflow(action), false) == v,
{
    lemma_credited_total(v, step_inflow(action), true);
}

/// The external outflow an accepted step records: a withdrawal debits its
/// amount to the acting account's outflow ledger (when the sum fits in a
/// `u128`); any other step debits nothing. A rejected step debits nothing.
pub proof fn lemma_recorded_outflow(v: Seq<u128>, action: Action)
    requires
        flow_in_range(step_outflow(action), v.len() as int),
    ensures
        match action {
            Action::Withdraw { account, amount } => v[account as int] + amount <= u128::MAX ==> (credited(v, step_outflow(action), true)
                == v.update(account as int, (v[account as int] + amount) as u128) && ledger_total(credited(v, step_outflow(action), true))
                == ledger_total(v) + amount),
            _ => credited(v, step_outflow(action), true) == v,
        },
        credited(v, step_outflow(action), false) == v,
{
    lemma_credited_total(v, step_outflow(action), true);
}

proof fn lemma_credited_total(v: Seq<u128>, flow: Option<(u8, int)>, accepted: bool)
    requires
        flow_in_range(flow, v.len() as int),
        flow matches Some((_, x)) ==> x >= 0,
    ensures
        accepted && flow is Some ==> ledger_total(credited(v, flow, accepted)) == ledger_total(v)
            + sat_add(v[flow->Some_0.0 as int] as int, flow->Some_0.1) - v[flow->Some_0.0 as int],
{
    if accepted && flow is Some {
        let (a, x) = flow->Some_0;
        lemma_ledger_update(v, a as int, sat_add(v[a as int] as int, x) as u128, v.len() as int);
    }
}

fn step_inflow_of(a: Action) -> (r: Option<(u8, u128)>)
    ensures
        match r {
            Some((acct, x)) => step_inflow(a) == Some((acct, x as int)),
            None => step_inflow(a) is None,
        },
{
    match a {
        Action::Deposit { account, amount } => Some((account, amount)),
        Action::SeedUnderwaterPosition { account, .. } => Some((account, 50)),
        Action::SeedUnderwaterPositionFunded { account, domain_budget, .. } => {
            match underwater_seed_extra(domain_budget) {
                Some(extra) => Some((account, extra)),
                None => None,
            }
        },
        _ => None,
    }
}

fn step_outflow_of(a: Action) -> (r: Option<(u8, u128)>)
    ensures
        match r {
            Some((acct, x)) => step_outflow(a) == Some((acct, x as int)),
            None => step_outflow(a) is None,
        },
{
    match a {
        Action::Withdraw { account, amount } => Some((account, amount)),
        _ => None,
    }
}

fn credit(v: &mut Vec<u128>, flow: Option<(u8, u128)>, accepted: bool)
    requires
        flow matches Some((a, _)) ==> a < old(v)@.len(),
    ensures
        final(v)@ == credited(
            old(v)@,
            match flow {
                Some((a, x)) => Some((a, x as int)),
                None => None,
            },
            accepted,
        ),
{
    if accepted {
        if let Some((a, x)) = flow {
            let i = a as usize;
            let cur = v[i];
            v.set(i, cur.saturating_add(x));
        }
    }
}

} // verus!
