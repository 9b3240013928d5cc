use crate::config::Config;
use vstd::arithmetic::div_mod::{
    lemma_div_is_ordered, lemma_div_multiples_vanish, lemma_div_pos_is_pos,
};
use vstd::prelude::*;

verus! {

/// The exact integer split of one redeem's fee.
#[derive(Clone, Copy, Debug, PartialEq, Eq, Structural)]
pub struct FeeBreakdown {
    /// The whole fee charged to the holder, in droplet base units.
    pub total_fee: u64,
    /// The part forwarded to the distributor.
    pub distributor_fee: u64,
    /// The remainder, forwarded to the treasury.
    pub treasury_fee: u64,
}

/// The droplet value of one NFT in base units: what a plain deposit mints,
/// a plain redeem burns, and the fee rate applies to.
pub open spec fn nft_droplet_value(cfg: Config) -> int {
    cfg.droplets_per_nft * cfg.lamports_per_droplet
}

/// The whole fee: the droplet value of one NFT times the rate, rounded down
/// to a base unit.
pub open spec fn spec_total_fee(cfg: Config, fee_basis_points: u16) -> int {
    nft_droplet_value(cfg) * fee_basis_points / 10000
}

/// The distributor's part: its basis-point share of the total fee, rounded
/// down to a base unit.
pub open spec fn spec_distributor_fee(cfg: Config, fee_basis_points: u16) -> int {
    spec_total_fee(cfg, fee_basis_points) * cfg.distributor_fee_basis_points / 10000
}

/// The treasury's part: whatever the distributor's rounding left of the
/// total, so that the split never leaks or fabricates value.
pub open spec fn spec_treasury_fee(cfg: Config, fee_basis_points: u16) -> int {
    spec_total_fee(cfg, fee_basis_points) - spec_distributor_fee(cfg, fee_basis_points)
}

/// Every fee amount is nonnegative, bounded by the droplet value of one NFT,
/// and every intermediate product fits in a machine word.
pub proof fn lemma_fee_bounds(cfg: Config, fee_basis_points: u16)
    requires
        cfg.wf(),
        fee_basis_points <= 10000,
    ensures
        nft_droplet_value(cfg) <= u64::MAX,
        nft_droplet_value(cfg) * fee_basis_points <= u64::MAX,
        0 <= spec_total_fee(cfg, fee_basis_points),
        spec_total_fee(cfg, fee_basis_points) <= nft_droplet_value(cfg),
        spec_total_fee(cfg, fee_basis_points) * cfg.distributor_fee_basis_points <= u64::MAX,
        0 <= spec_distributor_fee(cfg, fee_basis_points),
        spec_distributor_fee(cfg, fee_basis_points) <= spec_total_fee(cfg, fee_basis_points),
        0 <= spec_treasury_fee(cfg, fee_basis_points),
        spec_treasury_fee(cfg, fee_basis_points) <= spec_total_fee(cfg, fee_basis_points),
{
    let scale = cfg.droplets_per_nft * cfg.lamports_per_droplet;
    let scaled = scale * fee_basis_points;
    let total = spec_total_fee(cfg, fee_basis_points);
    assert(0 <= scale && scale <= scale * 10000 && 0 <= scaled && scaled <= scale * 10000) by (nonlinear_arith)
        requires
            scale == cfg.droplets_per_nft * cfg.lamports_per_droplet,
            scaled == scale * fee_basis_points,
            fee_basis_points <= 10000,
    ;
    lemma_div_pos_is_pos(scaled, 10000);
    lemma_div_is_ordered(scaled, scale * 10000, 10000);
    lemma_div_multiples_vanish(scale, 10000);
    assert(total <= scale);
    let share = total * cfg.distributor_fee_basis_points;
    assert(0 <= share && share <= total * 10000 && total * 10000 <= scale * 10000)
        by (nonlinear_arith)
        requires
            share == total * cfg.distributor_fee_basis_points,
            0 <= total,
            total <= scale,
            cfg.distributor_fee_basis_points <= 10000,
    ;
    lemma_div_pos_is_pos(share, 10000);
    lemma_div_is_ordered(share, total * 10000, 10000);
    lemma_div_multiples_vanish(total, 10000);
}

/// The fee split adds up exactly for every basis-point configuration: the
/// treasury takes precisely what the distributor's share left of the total,
/// and neither part is negative or exceeds the total.
pub proof fn lemma_fee_split_is_exact(cfg: Config, fee_basis_points: u16)
    requires
        cfg.distributor_fee_basis_points <= 10000,
        fee_basis_points <= 10000,
    ensures
        spec_distributor_fee(cfg, fee_basis_points) + spec_treasury_fee(cfg, fee_basis_points)
            == spec_total_fee(cfg, fee_basis_points),
        0 <= spec_distributor_fee(cfg, fee_basis_points),
        spec_distributor_fee(cfg, fee_basis_points) <= spec_total_fee(cfg, fee_basis_points),
        0 <= spec_treasury_fee(cfg, fee_basis_points),
{
    let scale = cfg.droplets_per_nft * cfg.lamports_per_droplet;
    let scaled = scale * fee_basis_points;
    let total = spec_total_fee(cfg, fee_basis_points);
    assert(0 <= scaled) by (nonlinear_arith)
        requires
            scaled == cfg.droplets_per_nft * cfg.lamports_per_droplet * fee_basis_points,
    ;
    lemma_div_pos_is_pos(scaled, 10000);
    let share = total * cfg.distributor_fee_basis_points;
    assert(0 <= share && share <= total * 10000) by (nonlinear_arith)
        requires
            share == total * cfg.distributor_fee_basis_points,
            0 <= total,
            cfg.distributor_fee_basis_points <= 10000,
    ;
    lemma_div_pos_is_pos(share, 10000);
    lemma_div_is_ordered(share, total * 10000, 10000);
    lemma_div_multiples_vanish(total, 10000);
}

/// Computes the fee split for one redeem, exactly as the specification
/// functions state it: no rounding leakage, every step overflow-free.
pub fn calculate_fees(cfg: &Config, fee_basis_points: u16) -> (fees: FeeBreakdown)
    requires
        cfg.wf(),
        fee_basis_points <= 10000,
    ensures
        fees.total_fee == spec_total_fee(*cfg, fee_basis_points),
        fees.distributor_fee == spec_distributor_fee(*cfg, fee_basis_points),
        fees.treasury_fee == spec_treasury_fee(*cfg, fee_basis_points),
        fees.distributor_fee + fees.treasury_fee == fees.total_fee,
        fees.total_fee <= nft_droplet_value(*cfg),
{
    proof {
        lemma_fee_bounds(*cfg, fee_basis_points);
        lemma_fee_split_is_exact(*cfg, fee_basis_points);
    }
    let scale: u64 = cfg.droplets_per_nft * cfg.lamports_per_droplet;
    let scaled: u64 = scale * (fee_basis_points as u64);
    let total_fee: u64 = scaled / 10000;
    let share: u64 = total_fee * (cfg.distributor_fee_basis_points as u64);
    let distributor_fee: u64 = share / 10000;
    let treasury_fee: u64 = total_fee - distributor_fee;
    FeeBreakdown { total_fee, distributor_fee, treasury_fee }
}

} // verus!
