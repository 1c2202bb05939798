//! Market-engine realizability cross-link between each non-empty per-account
//! source domain `d` and the market-engine side it maps to (`asset = d / 2`,
//! `side = d % 2`; 0 = long, 1 = short):
//!
//! (a) `source_claim_market_id == asset.market_id`, and
//! (b) `source_claim_bound_num <= positive_claim_bound_num` of that side.
//!
//! All-zero per-account domains are skipped; a non-empty domain with no
//! observable side to pair against fails closed.
use vstd::prelude::*;
use crate::driver::{AccountObs, DomainObs, MarketSideObs, Observation};
use crate::oracles::Violation;
use crate::text::{decimal, push_decimal};

verus! {

/// The observed domain is all-zero over the claim/lien fields.
pub open spec fn numeric_zero_spec(d: DomainObs) -> bool {
    d.source_claim_bound_num == 0 && d.source_claim_liened_num == 0
        && d.source_claim_counterparty_liened_num == 0 && d.source_claim_insurance_liened_num == 0
        && d.source_lien_effective_reserved == 0 && d.source_lien_counterparty_backing_num == 0
        && d.source_lien_insurance_backing_num == 0 && d.source_claim_impaired_num == 0
        && d.source_lien_impaired_effective_reserved == 0
}

fn is_numeric_zero_domain(d: &DomainObs) -> (r: bool)
    ensures
        r == numeric_zero_spec(*d),
{
    d.source_claim_bound_num == 0 && d.source_claim_liened_num == 0
        && d.source_claim_counterparty_liened_num == 0 && d.source_claim_insurance_liened_num == 0
        && d.source_lien_effective_reserved == 0 && d.source_lien_counterparty_backing_num == 0
        && d.source_lien_insurance_backing_num == 0 && d.source_claim_impaired_num == 0
        && d.source_lien_impaired_effective_reserved == 0
}

/// Which cross-link relationship was broken.
#[derive(Clone, Copy, Debug, PartialEq, Eq, Structural)]
pub enum CrossLinkKind {
    /// (a) the market ids differ, or no observable market side exists to pair
    /// the non-empty domain against.
    MarketIdMismatch,
    /// (b) the per-account claim bound exceeds the market's positive claim bound.
    BoundExceedsMarket,
}

/// The citation each cross-link kind breaks.
pub open spec fn cross_link_requirement(kind: CrossLinkKind) -> Seq<char> {
    match kind {
        CrossLinkKind::MarketIdMismatch => "market cross-link (v16.rs:2177)"@,
        CrossLinkKind::BoundExceedsMarket => "market cross-link (v16.rs:2186)"@,
    }
}

impl CrossLinkKind {
    /// The engine citation this breaks.
    pub fn requirement(self) -> (r: &'static str)
        ensures
            r@ == cross_link_requirement(self),
    {
        match self {
            CrossLinkKind::MarketIdMismatch => "market cross-link (v16.rs:2177)",
            CrossLinkKind::BoundExceedsMarket => "market cross-link (v16.rs:2186)",
        }
    }
}

/// The cross-link verdict of one domain against its paired side.
pub open spec fn cross_link_spec(d: DomainObs, market_id: u64, positive_claim_bound_num: u128) -> Result<
    (),
    CrossLinkKind,
> {
    if d.source_claim_market_id != market_id {
        Err(CrossLinkKind::MarketIdMismatch)
    } else if d.source_claim_bound_num > positive_claim_bound_num {
        Err(CrossLinkKind::BoundExceedsMarket)
    } else {
        Ok(())
    }
}

/// Cross-link arithmetic core for a non-empty domain `d` paired with a market
/// side of `market_id` and `positive_claim_bound_num`.
pub fn cross_link_kind(d: &DomainObs, market_id: u64, positive_claim_bound_num: u128) -> (r: Result<
    (),
    CrossLinkKind,
>)
    ensures
        r == cross_link_spec(*d, market_id, positive_claim_bound_num),
{
    if d.source_claim_market_id != market_id {
        return Err(CrossLinkKind::MarketIdMismatch);
    }
    if d.source_claim_bound_num > positive_claim_bound_num {
        return Err(CrossLinkKind::BoundExceedsMarket);
    }
    Ok(())
}

/// Index of the first side at or after `j` keyed `(asset, side)`.
pub open spec fn find_side(sides: Seq<MarketSideObs>, asset: usize, side: u8, j: int) -> Option<int>
    decreases sides.len() - j,
{
    if j < 0 || j >= sides.len() {
        None
    } else if sides[j].asset == asset && sides[j].side == side {
        Some(j)
    } else {
        find_side(sides, asset, side, j + 1)
    }
}

/// A found side lies in range, carries the keys, and no earlier side from `j`
/// carries them; no side from `j` carries them when none is found.
pub proof fn lemma_find_side(sides: Seq<MarketSideObs>, asset: usize, side: u8, j: int)
    requires
        0 <= j,
    ensures
        find_side(sides, asset, side, j) matches Some(k) ==> {
            &&& j <= k < sides.len()
            &&& sides[k].asset == asset && sides[k].side == side
            &&& forall|i: int|
                j <= i < k ==> !(#[trigger] sides[i].asset == asset && sides[i].side == side)
        },
        find_side(sides, asset, side, j) is None ==> forall|i: int|
            j <= i < sides.len() ==> !(#[trigger] sides[i].asset == asset && sides[i].side == side),
    decreases sides.len() - j,
{
    if j < sides.len() {
        lemma_find_side(sides, asset, side, j + 1);
    }
}

/// Locate the side keyed `(asset, side)` (the first such).
pub(crate) fn find_side_index(sides: &[MarketSideObs], asset: usize, side: u8) -> (r: Option<usize>)
    ensures
        match r {
            Some(k) => find_side(sides@, asset, side, 0) == Some(k as int),
            None => find_side(sides@, asset, side, 0) is None,
        },
{
    let mut i: usize = 0;
    while i < sides.len()
        invariant
            i <= sides@.len(),
            find_side(sides@, asset, side, 0) == find_side(sides@, asset, side, i as int),
        decreases sides@.len() - i,
    {
        if sides[i].asset == asset && sides[i].side == side {
            return Some(i);
        }
        i = i + 1;
    }
    None
}

/// The cross-link verdict of domain `di`: `Ok` for an all-zero domain, else the
/// pairing's kind, with `true` when no side could be paired.
pub open spec fn link_verdict(doms: Seq<DomainObs>, sides: Seq<MarketSideObs>, di: int) -> Result<
    (),
    (CrossLinkKind, bool),
> {
    let d = doms[di];
    if numeric_zero_spec(d) {
        Ok(())
    } else {
        match find_side(sides, (di / 2) as usize, (di % 2) as u8, 0) {
            None => Err((CrossLinkKind::MarketIdMismatch, true)),
            Some(k) => match cross_link_spec(
                d,
                sides[k].market_id,
                sides[k].state.positive_claim_bound_num,
            ) {
                Ok(()) => Ok(()),
                Err(kind) => Err((kind, false)),
            },
        }
    }
}

/// The `domain {di} (asset {asset}, side {side}): ` prefix of a detail.
pub open spec fn domain_prefix(di: int) -> Seq<char> {
    "domain "@ + decimal(di as nat) + " (asset "@ + decimal((di / 2) as nat) + ", side "@
        + decimal((di % 2) as nat) + "): "@
}

/// The detail of a failing domain `di`.
pub open spec fn link_detail(doms: Seq<DomainObs>, sides: Seq<MarketSideObs>, di: int) -> Seq<char> {
    let d = doms[di];
    match find_side(sides, (di / 2) as usize, (di % 2) as u8, 0) {
        None => domain_prefix(di)
            + "no observable market-engine source-credit side to pair against; cannot certify the v16.rs:2177/2186 cross-link"@,
        Some(k) => if d.source_claim_market_id != sides[k].market_id {
            domain_prefix(di) + "source_claim_market_id("@ + decimal(
                d.source_claim_market_id as nat,
            ) + ") != asset.market_id("@ + decimal(sides[k].market_id as nat) + ")"@
        } else {
            domain_prefix(di) + "source_claim_bound_num("@ + decimal(
                d.source_claim_bound_num as nat,
            ) + ") > market positive_claim_bound_num("@ + decimal(
                sides[k].state.positive_claim_bound_num as nat,
            ) + ")"@
        },
    }
}

fn push_domain_prefix(s: &mut String, di: usize)
    ensures
        final(s)@ == old(s)@ + domain_prefix(di as int),
{
    let ghost start = s@;
    s.append("domain ");
    push_decimal(s, di as u128);
    s.append(" (asset ");
    push_decimal(s, (di / 2) as u128);
    s.append(", side ");
    push_decimal(s, (di % 2) as u128);
    s.append("): ");
    assert(s@ =~= start + domain_prefix(di as int));
}

/// Check every non-empty per-account source domain against the market-engine
/// side it maps to; the error names the first offending domain.
pub fn market_cross_link(account_domains: &[DomainObs], market_domains: &[MarketSideObs]) -> (r:
    Result<(), Violation>)
    ensures
        r is Ok <==> forall|di: int|
            0 <= di < account_domains@.len() ==> #[trigger] link_verdict(
                account_domains@,
                market_domains@,
                di,
            ) is Ok,
        r matches Err(v) ==> exists|di: int|
            0 <= di < account_domains@.len() && #[trigger] link_verdict(
                account_domains@,
                market_domains@,
                di,
            ) is Err && (forall|j: int|
                0 <= j < di ==> #[trigger] link_verdict(account_domains@, market_domains@, j) is Ok)
                && v.requirement@ == cross_link_requirement(
                link_verdict(account_domains@, market_domains@, di)->Err_0.0,
            ) && v.detail@ == link_detail(account_domains@, market_domains@, di),
        r is Ok ==> forall|di: int|
            #![trigger account_domains@[di]]
            0 <= di < account_domains@.len() && (account_domains@[di].source_claim_bound_num != 0 || account_domains@[di].source_claim_liened_num != 0
                || account_domains@[di].source_claim_counterparty_liened_num != 0
                || account_domains@[di].source_claim_insurance_liened_num != 0
                || account_domains@[di].source_lien_effective_reserved != 0
                || account_domains@[di].source_lien_counterparty_backing_num != 0
                || account_domains@[di].source_lien_insurance_backing_num != 0
                || account_domains@[di].source_claim_impaired_num != 0
                || account_domains@[di].source_lien_impaired_effective_reserved != 0) ==> exists|k: int|
                0 <= k < market_domains@.len() && #[trigger] market_domains@[k].asset == (di / 2) as usize
                    && market_domains@[k].side == (di % 2) as u8 && market_domains@[k].market_id
                    == account_domains@[di].source_claim_market_id
                    && account_domains@[di].source_claim_bound_num
                    <= market_domains@[k].state.positive_claim_bound_num,
{
    let mut di: usize = 0;
    while di < account_domains.len()
        invariant
            di <= account_domains@.len(),
            forall|j: int|
                0 <= j < di ==> #[trigger] link_verdict(account_domains@, market_domains@, j) is Ok,
        decreases account_domains@.len() - di,
    {
        let dom = &account_domains[di];
        if !is_numeric_zero_domain(dom) {
            let asset = di / 2;
            let side = (di % 2) as u8;
            proof {
                lemma_find_side(market_domains@, asset, side, 0);
            }
            match find_side_index(market_domains, asset, side) {
                None => {
                    let mut detail = String::new();
                    push_domain_prefix(&mut detail, di);
                    detail.append(
                        "no observable market-engine source-credit side to pair against; cannot certify the v16.rs:2177/2186 cross-link",
                    );
                    assert(link_verdict(account_domains@, market_domains@, di as int) is Err);
                    assert(detail@ =~= link_detail(account_domains@, market_domains@, di as int));
                    return Err(
                        Violation { requirement: CrossLinkKind::MarketIdMismatch.requirement(), detail },
                    );
                },
                Some(k) => {
                    let m = &market_domains[k];
                    match cross_link_kind(dom, m.market_id, m.state.positive_claim_bound_num) {
                        Ok(()) => {},
                        Err(kind) => {
                            let mut detail = String::new();
                            push_domain_prefix(&mut detail, di);
                            match kind {
                                CrossLinkKind::MarketIdMismatch => {
                                    detail.append("source_claim_market_id(");
                                    push_decimal(&mut detail, dom.source_claim_market_id as u128);
                                    detail.append(") != asset.market_id(");
                                    push_decimal(&mut detail, m.market_id as u128);
                                    detail.append(")");
                                },
                                CrossLinkKind::BoundExceedsMarket => {
                                    detail.append("source_claim_bound_num(");
                                    push_decimal(&mut detail, dom.source_claim_bound_num);
                                    detail.append(") > market positive_claim_bound_num(");
                                    push_decimal(&mut detail, m.state.positive_claim_bound_num);
                                    detail.append(")");
                                },
                            }
                            assert(link_verdict(account_domains@, market_domains@, di as int)
                                == Err::<(), (CrossLinkKind, bool)>((kind, false)));
                            assert(detail@ =~= link_detail(account_domains@, market_domains@, di as int));
                            return Err(Violation { requirement: kind.requirement(), detail });
                        },
                    }
                },
            }
        }
        assert(link_verdict(account_domains@, market_domains@, di as int) is Ok);
        di = di + 1;
    }
    proof {
        lemma_market_cross_link_sound(account_domains@, market_domains@);
    }
    Ok(())
}

/// Account `ai` passes the cross-link against the observation's market sides.
pub open spec fn account_links_ok(accounts: Seq<AccountObs>, sides: Seq<MarketSideObs>, ai: int) -> bool {
    forall|di: int|
        0 <= di < accounts[ai].domains@.len() ==> #[trigger] link_verdict(
            accounts[ai].domains@,
            sides,
            di,
        ) is Ok
}

/// Run [`market_cross_link`] for every account of an observation against its
/// shared market sides; the error names the first offending account.
pub fn check_observation_market(obs: &Observation) -> (r: Result<(), Violation>)
    ensures
        r is Ok <==> forall|ai: int|
            0 <= ai < obs.accounts@.len() ==> #[trigger] account_links_ok(
                obs.accounts@,
                obs.market_domains@,
                ai,
            ),
        r matches Err(v) ==> exists|ai: int, di: int|
            0 <= ai < obs.accounts@.len() && (forall|a: int|
                0 <= a < ai ==> #[trigger] account_links_ok(obs.accounts@, obs.market_domains@, a))
                && 0 <= di < obs.accounts@[ai].domains@.len() && #[trigger] link_verdict(
                obs.accounts@[ai].domains@,
                obs.market_domains@,
                di,
            ) is Err && (forall|j: int|
                0 <= j < di ==> #[trigger] link_verdict(
                    obs.accounts@[ai].domains@,
                    obs.market_domains@,
                    j,
                ) is Ok) && v.requirement@ == cross_link_requirement(
                link_verdict(obs.accounts@[ai].domains@, obs.market_domains@, di)->Err_0.0,
            ) && v.detail@ == "account "@ + decimal(ai as nat) + ", "@ + link_detail(
                obs.accounts@[ai].domains@,
                obs.market_domains@,
                di,
            ),
{
    let mut ai: usize = 0;
    while ai < obs.accounts.len()
        invariant
            ai <= obs.accounts@.len(),
            forall|a: int|
                0 <= a < ai ==> #[trigger] account_links_ok(obs.accounts@, obs.market_domains@, a),
        decreases obs.accounts@.len() - ai,
    {
        let r = market_cross_link(obs.accounts[ai].domains.as_slice(), obs.market_domains.as_slice());
        if let Err(v) = r {
            let mut detail = String::from_str("account ");
            push_decimal(&mut detail, ai as u128);
            detail.append(", ");
            detail.append(v.detail.as_str());
            assert(!account_links_ok(obs.accounts@, obs.market_domains@, ai as int));
            return Err(Violation { requirement: v.requirement, detail });
        }
        ai = ai + 1;
    }
    Ok(())
}

/// The cross-link checker is sound: when it clears an account's domains, every
/// domain `di` with any non-zero claim/lien field has an observed market side
/// keyed `(di / 2, di % 2)` whose market id equals the domain's and whose
/// positive claim bound is at least the domain's claim bound. Only a domain
/// whose nine claim/lien fields are all zero goes unpaired.
pub proof fn lemma_market_cross_link_sound(doms: Seq<DomainObs>, sides: Seq<MarketSideObs>)
    requires
        forall|di: int| 0 <= di < doms.len() ==> #[trigger] link_verdict(doms, sides, di) is Ok,
    ensures
        forall|di: int|
            #![trigger doms[di]]
            0 <= di < doms.len() && (doms[di].source_claim_bound_num != 0 || doms[di].source_claim_liened_num != 0
                || doms[di].source_claim_counterparty_liened_num != 0
                || doms[di].source_claim_insurance_liened_num != 0
                || doms[di].source_lien_effective_reserved != 0
                || doms[di].source_lien_counterparty_backing_num != 0
                || doms[di].source_lien_insurance_backing_num != 0
                || doms[di].source_claim_impaired_num != 0
                || doms[di].source_lien_impaired_effective_reserved != 0) ==> exists|k: int|
                0 <= k < sides.len() && #[trigger] sides[k].asset == (di / 2) as usize && sides[k].side
                    == (di % 2) as u8 && sides[k].market_id == doms[di].source_claim_market_id
                    && doms[di].source_claim_bound_num <= sides[k].state.positive_claim_bound_num,
{
    assert forall|di: int|
        #![trigger doms[di]]
        0 <= di < doms.len() && (doms[di].source_claim_bound_num != 0 || doms[di].source_claim_liened_num != 0
                || doms[di].source_claim_counterparty_liened_num != 0
                || doms[di].source_claim_insurance_liened_num != 0
                || doms[di].source_lien_effective_reserved != 0
                || doms[di].source_lien_counterparty_backing_num != 0
                || doms[di].source_lien_insurance_backing_num != 0
                || doms[di].source_claim_impaired_num != 0
                || doms[di].source_lien_impaired_effective_reserved != 0) implies exists|k: int|
            0 <= k < sides.len() && #[trigger] sides[k].asset == (di / 2) as usize && sides[k].side
                == (di % 2) as u8 && sides[k].market_id == doms[di].source_claim_market_id
                && doms[di].source_claim_bound_num <= sides[k].state.positive_claim_bound_num by {
        assert(link_verdict(doms, sides, di) is Ok);
        lemma_find_side(sides, (di / 2) as usize, (di % 2) as u8, 0);
        let k = find_side(sides, (di / 2) as usize, (di % 2) as u8, 0)->Some_0;
        assert(sides[k].asset == (di / 2) as usize);
    }
}

/// The cross-link checker is complete: when every domain `di` with a non-zero
/// claim/lien field has an observed market side keyed `(di / 2, di % 2)`, and
/// every such side carries the domain's market id and a positive claim bound at
/// least the domain's claim bound, every domain is cleared.
pub proof fn lemma_market_cross_link_complete(doms: Seq<DomainObs>, sides: Seq<MarketSideObs>)
    requires
        forall|di: int|
            #![trigger doms[di]]
            0 <= di < doms.len() && (doms[di].source_claim_bound_num != 0 || doms[di].source_claim_liened_num != 0
                || doms[di].source_claim_counterparty_liened_num != 0
                || doms[di].source_claim_insurance_liened_num != 0
                || doms[di].source_lien_effective_reserved != 0
                || doms[di].source_lien_counterparty_backing_num != 0
                || doms[di].source_lien_insurance_backing_num != 0
                || doms[di].source_claim_impaired_num != 0
                || doms[di].source_lien_impaired_effective_reserved != 0) ==> {
                &&& exists|k: int|
                    0 <= k < sides.len() && #[trigger] sides[k].asset == (di / 2) as usize
                        && sides[k].side == (di % 2) as u8
                &&& forall|k: int|
                    0 <= k < sides.len() && #[trigger] sides[k].asset == (di / 2) as usize
                        && sides[k].side == (di % 2) as u8 ==> sides[k].market_id
                        == doms[di].source_claim_market_id && doms[di].source_claim_bound_num
                        <= sides[k].state.positive_claim_bound_num
            },
    ensures
        forall|di: int| 0 <= di < doms.len() ==> #[trigger] link_verdict(doms, sides, di) is Ok,
{
    assert forall|di: int| 0 <= di < doms.len() implies #[trigger] link_verdict(doms, sides, di) is Ok by {
        let d = doms[di];
        if !numeric_zero_spec(d) {
            lemma_find_side(sides, (di / 2) as usize, (di % 2) as u8, 0);
            let k0 = choose|k: int|
                0 <= k < sides.len() && #[trigger] sides[k].asset == (di / 2) as usize
                    && sides[k].side == (di % 2) as u8;
            assert(sides[k0].asset == (di / 2) as usize);
            let k = find_side(sides, (di / 2) as usize, (di % 2) as u8, 0)->Some_0;
            assert(sides[k].asset == (di / 2) as usize);
        }
    }
}

} // verus!
