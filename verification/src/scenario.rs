//! Pure campaign vocabulary. No engine calls. Deterministic.
use vstd::prelude::*;
use crate::text::{decimal, push_decimal};

verus! {

/// A position side.
#[derive(Clone, Copy, Debug, PartialEq, Eq, Structural)]
pub enum Side {
    Long,
    Short,
}

/// One step of an adversarial campaign.
#[derive(Clone, Copy, Debug, PartialEq, Eq, Structural)]
pub enum Action {
    Deposit { account: u8, amount: u128 },
    Withdraw { account: u8, amount: u128 },
    /// A matched trade between two accounts on one asset at an execution price.
    Trade { long: u8, short: u8, asset: u8, size_q: u128, exec_price: u64, fee_bps: u64 },
    /// Move an asset's effective (mark) price at a slot.
    MovePrice { asset: u8, now_slot: u64, effective_price: u64 },
    /// A position-aware refresh crank of one account on one asset.
    Crank { account: u8, asset: u8, now_slot: u64, effective_price: u64 },
    /// A backing provider posts a positive source-credit claim bound plus matching
    /// fresh counterparty backing on one (asset, side) domain.
    ProviderPostClaim { asset: u8, side: u8, claim: u128 },
    /// A refresh crank that accrues funding at a non-zero rate.
    AccrueFunding {
        account: u8,
        asset: u8,
        now_slot: u64,
        effective_price: u64,
        funding_rate_e9: i128,
    },
    /// Seed an account's positive source-attributed PnL and the matching market
    /// claim and backing on the asset's long domain.
    SeedSourceClaim { account: u8, asset: u8, claim: u128 },
    /// Seed an underwater long position on an unfunded bankruptcy domain.
    SeedUnderwaterPosition { account: u8, asset: u8 },
    /// Seed an underwater long position whose bankruptcy domain is funded.
    SeedUnderwaterPositionFunded { account: u8, asset: u8, domain_budget: u128 },
    Liquidate { account: u8, asset: u8, close_q: u128 },
    /// Seed a finalized, ADL-eligible close (`bankrupt_side`: 0 = long, 1 = short).
    SeedFinalizedClose { account: u8, asset: u8, bankrupt_side: u8 },
    /// Apply a quantity auto-deleverage against a finalized close.
    ApplyAdl { account: u8, asset: u8, bankrupt_side: u8, close_q: u128 },
    /// Realize released positive PnL into capital.
    ConvertReleasedPnl { account: u8 },
    /// Release source-credit liens that are no longer needed.
    ReleaseLiens { account: u8 },
}

/// A whole campaign: the market/account dimensions and the ordered actions.
#[derive(Clone, Debug, PartialEq, Eq)]
pub struct Scenario {
    pub n_markets: u32,
    pub n_accounts: u8,
    pub actions: Vec<Action>,
}

/// Why a scenario is structurally unfit to drive the engine.
#[derive(Clone, Copy, Debug, PartialEq, Eq, Structural)]
pub enum ScenarioError {
    /// An action names an account index `>= n_accounts`.
    AccountOutOfRange { step: usize, account: u8 },
    /// An action names an asset index `>= n_markets`.
    AssetOutOfRange { step: usize, asset: u8 },
    /// A trade names the same account on both legs.
    SelfTrade { step: usize, account: u8 },
    /// A side byte is neither 0 (long) nor 1 (short).
    SideOutOfRange { step: usize, side: u8 },
}

/// The first structural fault among the account indices `accounts` (in order).
pub open spec fn first_bad_account(accounts: Seq<u8>, n_accounts: u8, step: usize) -> Option<ScenarioError>
    decreases accounts.len(),
{
    if accounts.len() == 0 {
        None
    } else if accounts[0] >= n_accounts {
        Some(ScenarioError::AccountOutOfRange { step, account: accounts[0] })
    } else {
        first_bad_account(accounts.drop_first(), n_accounts, step)
    }
}

/// The account indices an action names, in field order.
pub open spec fn action_accounts(a: Action) -> Seq<u8> {
    match a {
        Action::Deposit { account, .. } => seq![account],
        Action::Withdraw { account, .. } => seq![account],
        Action::Trade { long, short, .. } => seq![long, short],
        Action::MovePrice { .. } => seq![],
        Action::Crank { account, .. } => seq![account],
        Action::ProviderPostClaim { .. } => seq![],
        Action::AccrueFunding { account, .. } => seq![account],
        Action::SeedSourceClaim { account, .. } => seq![account],
        Action::SeedUnderwaterPosition { account, .. } => seq![account],
        Action::SeedUnderwaterPositionFunded { account, .. } => seq![account],
        Action::Liquidate { account, .. } => seq![account],
        Action::SeedFinalizedClose { account, .. } => seq![account],
        Action::ApplyAdl { account, .. } => seq![account],
        Action::ConvertReleasedPnl { account } => seq![account],
        Action::ReleaseLiens { account } => seq![account],
    }
}

/// The asset index an action names, if any.
pub open spec fn action_asset(a: Action) -> Option<u8> {
    match a {
        Action::Trade { asset, .. } => Some(asset),
        Action::MovePrice { asset, .. } => Some(asset),
        Action::Crank { asset, .. } => Some(asset),
        Action::ProviderPostClaim { asset, .. } => Some(asset),
        Action::AccrueFunding { asset, .. } => Some(asset),
        Action::SeedSourceClaim { asset, .. } => Some(asset),
        Action::SeedUnderwaterPosition { asset, .. } => Some(asset),
        Action::SeedUnderwaterPositionFunded { asset, .. } => Some(asset),
        Action::Liquidate { asset, .. } => Some(asset),
        Action::SeedFinalizedClose { asset, .. } => Some(asset),
        Action::ApplyAdl { asset, .. } => Some(asset),
        _ => None,
    }
}

/// The side byte an action names, if any.
pub open spec fn action_side(a: Action) -> Option<u8> {
    match a {
        Action::ProviderPostClaim { side, .. } => Some(side),
        Action::SeedFinalizedClose { bankrupt_side, .. } => Some(bankrupt_side),
        Action::ApplyAdl { bankrupt_side, .. } => Some(bankrupt_side),
        _ => None,
    }
}

/// The structural check of one action at `step`: account indices first (in field
/// order), then the asset index, then distinct trade legs, then the side byte.
pub open spec fn action_check(a: Action, n_accounts: u8, n_markets: u32, step: usize) -> Result<(), ScenarioError> {
    match first_bad_account(action_accounts(a), n_accounts, step) {
        Some(e) => Err(e),
        None => {
            if action_asset(a) is Some && action_asset(a)->0 >= n_markets {
                Err(ScenarioError::AssetOutOfRange { step, asset: action_asset(a)->0 })
            } else if a matches Action::Trade { long, short, .. } && long == short {
                Err(ScenarioError::SelfTrade { step, account: action_accounts(a)[0] })
            } else if action_side(a) is Some && action_side(a)->0 > 1 {
                Err(ScenarioError::SideOutOfRange { step, side: action_side(a)->0 })
            } else {
                Ok(())
            }
        },
    }
}

/// Every index an action names is in range: account indices below
/// `n_accounts`, the asset index below `n_markets`, a side byte 0 or 1, and the
/// two legs of a trade distinct accounts.
pub open spec fn action_in_range(a: Action, n_accounts: u8, n_markets: u32) -> bool {
    match a {
        Action::Deposit { account, .. } => account < n_accounts,
        Action::Withdraw { account, .. } => account < n_accounts,
        Action::Trade { long, short, asset, .. } => long < n_accounts && short < n_accounts
            && asset < n_markets && long != short,
        Action::MovePrice { asset, .. } => asset < n_markets,
        Action::Crank { account, asset, .. } => account < n_accounts && asset < n_markets,
        Action::ProviderPostClaim { asset, side, .. } => asset < n_markets && side <= 1,
        Action::AccrueFunding { account, asset, .. } => account < n_accounts && asset < n_markets,
        Action::SeedSourceClaim { account, asset, .. } => account < n_accounts && asset < n_markets,
        Action::SeedUnderwaterPosition { account, asset } => account < n_accounts && asset
            < n_markets,
        Action::SeedUnderwaterPositionFunded { account, asset, .. } => account < n_accounts && asset
            < n_markets,
        Action::Liquidate { account, asset, .. } => account < n_accounts && asset < n_markets,
        Action::SeedFinalizedClose { account, asset, bankrupt_side } => account < n_accounts && asset
            < n_markets && bankrupt_side <= 1,
        Action::ApplyAdl { account, asset, bankrupt_side, .. } => account < n_accounts && asset
            < n_markets && bankrupt_side <= 1,
        Action::ConvertReleasedPnl { account } => account < n_accounts,
        Action::ReleaseLiens { account } => account < n_accounts,
    }
}

/// The structural check of an action passes exactly when every index it names
/// is in range ([`action_in_range`]), whatever the step.
pub proof fn lemma_action_check_in_range(a: Action, n_accounts: u8, n_markets: u32, step: usize)
    ensures
        action_check(a, n_accounts, n_markets, step) is Ok <==> action_in_range(a, n_accounts, n_markets),
{
    reveal_with_fuel(first_bad_account, 3);
    let accs = action_accounts(a);
    if accs.len() == 2 {
        assert(accs.drop_first().drop_first() =~= Seq::<u8>::empty());
        assert(accs.drop_first()[0] == accs[1]);
    } else if accs.len() == 1 {
        assert(accs.drop_first() =~= Seq::<u8>::empty());
    }
}

impl Scenario {
    /// Every action of the scenario passes [`action_check`].
    pub open spec fn well_formed(&self) -> bool {
        forall|i: int|
            0 <= i < self.actions@.len() ==> action_check(
                #[trigger] self.actions@[i],
                self.n_accounts,
                self.n_markets,
                i as usize,
            ) is Ok
    }

    /// Reject a structurally-invalid scenario (out-of-range account or asset
    /// indices, a self-trade, a side byte other than 0/1) before it drives the
    /// engine. The error names the first offending step.
    pub fn validate(&self) -> (r: Result<(), ScenarioError>)
        ensures
            r is Ok <==> self.well_formed(),
            r matches Err(e) ==> exists|i: int|
                0 <= i < self.actions@.len() && action_check(
                    #[trigger] self.actions@[i],
                    self.n_accounts,
                    self.n_markets,
                    i as usize,
                ) == Err::<(), ScenarioError>(e) && forall|j: int|
                    0 <= j < i ==> action_check(
                        #[trigger] self.actions@[j],
                        self.n_accounts,
                        self.n_markets,
                        j as usize,
                    ) is Ok,
            r is Ok <==> forall|i: int|
                0 <= i < self.actions@.len() ==> action_in_range(
                    #[trigger] self.actions@[i],
                    self.n_accounts,
                    self.n_markets,
                ),
    {
        proof {
            assert forall|i: int| 0 <= i < self.actions@.len() implies (action_check(
                #[trigger] self.actions@[i],
                self.n_accounts,
                self.n_markets,
                i as usize,
            ) is Ok <==> action_in_range(self.actions@[i], self.n_accounts, self.n_markets)) by {
                lemma_action_check_in_range(self.actions@[i], self.n_accounts, self.n_markets, i as usize);
            }
        }
        let mut i: usize = 0;
        while i < self.actions.len()
            invariant
                i <= self.actions@.len(),
                forall|k: int| 0 <= k < self.actions@.len() ==> (action_check(
                    #[trigger] self.actions@[k],
                    self.n_accounts,
                    self.n_markets,
                    k as usize,
                ) is Ok <==> action_in_range(self.actions@[k], self.n_accounts, self.n_markets)),
                forall|j: int|
                    0 <= j < i ==> action_check(
                        #[trigger] self.actions@[j],
                        self.n_accounts,
                        self.n_markets,
                        j as usize,
                    ) is Ok,
            decreases self.actions@.len() - i,
        {
            let r = check_action(self.actions[i], self.n_accounts, self.n_markets, i);
            if let Err(e) = r {
                return Err(e);
            }
            i = i + 1;
        }
        Ok(())
    }
}

fn check_accounts(a: &Vec<u8>, n_accounts: u8, step: usize) -> (r: Option<ScenarioError>)
    ensures
        r == first_bad_account(a@, n_accounts, step),
{
    let mut i: usize = 0;
    assert(a@.skip(0) =~= a@);
    while i < a.len()
        invariant
            i <= a@.len(),
            first_bad_account(a@, n_accounts, step) == first_bad_account(a@.skip(i as int), n_accounts, step),
        decreases a@.len() - i,
    {
        assert(a@.skip(i as int).drop_first() =~= a@.skip(i + 1));
        if a[i] >= n_accounts {
            return Some(ScenarioError::AccountOutOfRange { step, account: a[i] });
        }
        i = i + 1;
    }
    assert(a@.skip(i as int) =~= Seq::<u8>::empty());
    None
}

fn accounts_of(a: Action) -> (r: Vec<u8>)
    ensures
        r@ == action_accounts(a),
{
    match a {
        Action::Deposit { account, .. } => vec![account],
        Action::Withdraw { account, .. } => vec![account],
        Action::Trade { long, short, .. } => vec![long, short],
        Action::MovePrice { .. } => vec![],
        Action::Crank { account, .. } => vec![account],
        Action::ProviderPostClaim { .. } => vec![],
        Action::AccrueFunding { account, .. } => vec![account],
        Action::SeedSourceClaim { account, .. } => vec![account],
        Action::SeedUnderwaterPosition { account, .. } => vec![account],
        Action::SeedUnderwaterPositionFunded { account, .. } => vec![account],
        Action::Liquidate { account, .. } => vec![account],
        Action::SeedFinalizedClose { account, .. } => vec![account],
        Action::ApplyAdl { account, .. } => vec![account],
        Action::ConvertReleasedPnl { account } => vec![account],
        Action::ReleaseLiens { account } => vec![account],
    }
}

fn asset_of(a: Action) -> (r: Option<u8>)
    ensures
        r == action_asset(a),
{
    match a {
        Action::Trade { asset, .. } => Some(asset),
        Action::MovePrice { asset, .. } => Some(asset),
        Action::Crank { asset, .. } => Some(asset),
        Action::ProviderPostClaim { asset, .. } => Some(asset),
        Action::AccrueFunding { asset, .. } => Some(asset),
        Action::SeedSourceClaim { asset, .. } => Some(asset),
        Action::SeedUnderwaterPosition { asset, .. } => Some(asset),
        Action::SeedUnderwaterPositionFunded { asset, .. } => Some(asset),
        Action::Liquidate { asset, .. } => Some(asset),
        Action::SeedFinalizedClose { asset, .. } => Some(asset),
        Action::ApplyAdl { asset, .. } => Some(asset),
        _ => None,
    }
}

fn side_of(a: Action) -> (r: Option<u8>)
    ensures
        r == action_side(a),
{
    match a {
        Action::ProviderPostClaim { side, .. } => Some(side),
        Action::SeedFinalizedClose { bankrupt_side, .. } => Some(bankrupt_side),
        Action::ApplyAdl { bankrupt_side, .. } => Some(bankrupt_side),
        _ => None,
    }
}

fn check_action(a: Action, n_accounts: u8, n_markets: u32, step: usize) -> (r: Result<(), ScenarioError>)
    ensures
        r == action_check(a, n_accounts, n_markets, step),
{
    let accounts = accounts_of(a);
    if let Some(e) = check_accounts(&accounts, n_accounts, step) {
        return Err(e);
    }
    if let Some(asset) = asset_of(a) {
        if asset as u32 >= n_markets {
            return Err(ScenarioError::AssetOutOfRange { step, asset });
        }
    }
    if let Action::Trade { long, short, .. } = a {
        if long == short {
            return Err(ScenarioError::SelfTrade { step, account: long });
        }
    }
    if let Some(side) = side_of(a) {
        if side > 1 {
            return Err(ScenarioError::SideOutOfRange { step, side });
        }
    }
    Ok(())
}

/// The human-readable message of a [`ScenarioError`].
pub open spec fn scenario_error_text(e: ScenarioError) -> Seq<char> {
    match e {
        ScenarioError::AccountOutOfRange { step, account } => "step "@ + decimal(step as nat)
            + ": account index "@ + decimal(account as nat) + " is out of range"@,
        ScenarioError::AssetOutOfRange { step, asset } => "step "@ + decimal(step as nat)
            + ": asset index "@ + decimal(asset as nat) + " is out of range"@,
        ScenarioError::SelfTrade { step, account } => "step "@ + decimal(step as nat)
            + ": trade legs must be distinct accounts (both are "@ + decimal(account as nat) + ")"@,
        ScenarioError::SideOutOfRange { step, side } => "step "@ + decimal(step as nat)
            + ": side "@ + decimal(side as nat) + " is neither 0 (long) nor 1 (short)"@,
    }
}

impl ScenarioError {
    /// A human-readable message naming the offending step and value.
    pub fn message(&self) -> (s: String)
        ensures
            s@ == scenario_error_text(*self),
    {
        let mut s = String::from_str("step ");
        match *self {
            ScenarioError::AccountOutOfRange { step, account } => {
                push_decimal(&mut s, step as u128);
                s.append(": account index ");
                push_decimal(&mut s, account as u128);
                s.append(" is out of range");
            },
            ScenarioError::AssetOutOfRange { step, asset } => {
                push_decimal(&mut s, step as u128);
                s.append(": asset index ");
                push_decimal(&mut s, asset as u128);
                s.append(" is out of range");
            },
            ScenarioError::SelfTrade { step, account } => {
                push_decimal(&mut s, step as u128);
                s.append(": trade legs must be distinct accounts (both are ");
                push_decimal(&mut s, account as u128);
                s.append(")");
            },
            ScenarioError::SideOutOfRange { step, side } => {
                push_decimal(&mut s, step as u128);
                s.append(": side ");
                push_decimal(&mut s, side as u128);
                s.append(" is neither 0 (long) nor 1 (short)");
            },
        }
        s
    }
}

} // verus!
