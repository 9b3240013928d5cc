use vstd::prelude::*;

verus! {

/// Deployment configuration of the protocol: the fixed exchange rate, the
/// fee rates in basis points, and the treasury identity.
///
/// The treasury is an injected value checked by equality at redeem time, not
/// a compiled-in constant.
#[derive(Clone, Copy, Debug, PartialEq, Eq, Structural)]
pub struct Config {
    /// How many droplets one NFT exchanges for, in whole tokens.
    pub droplets_per_nft: u64,
    /// Smallest-unit scale of the droplet token: how many base units make
    /// one whole droplet.
    pub lamports_per_droplet: u64,
    /// Fee rate of a standard redeem, in basis points.
    pub redeem_fee_basis_points: u16,
    /// Fee rate of a swap-eligible redeem, in basis points.
    pub swap_fee_basis_points: u16,
    /// The distributor's share of the total fee, in basis points.
    pub distributor_fee_basis_points: u16,
    /// Identity of the protocol treasury. A redeem rejects any
    /// caller-supplied treasury that differs from it.
    pub treasury: u64,
}

impl Config {
    /// A valid configuration: every rate is a basis-point fraction, and the
    /// droplet value of one NFT is small enough that every fee product fits
    /// in a machine word.
    pub open spec fn wf(self) -> bool {
        &&& self.redeem_fee_basis_points <= 10000
        &&& self.swap_fee_basis_points <= 10000
        &&& self.distributor_fee_basis_points <= 10000
        &&& self.droplets_per_nft * self.lamports_per_droplet * 10000 <= u64::MAX
    }

    /// Checks validity at run time, so that unverified callers can establish
    /// `wf` before handing the configuration to the operations.
    pub fn is_valid(&self) -> (valid: bool)
        ensures
            valid == self.wf(),
    {
        proof {
            lemma_scale_bounded_by_fee_product(*self);
        }
        self.redeem_fee_basis_points <= 10000 && self.swap_fee_basis_points <= 10000
            && self.distributor_fee_basis_points <= 10000
            && match self.droplets_per_nft.checked_mul(self.lamports_per_droplet) {
            Some(scale) => match scale.checked_mul(10000) {
                Some(_) => true,
                None => false,
            },
            None => false,
        }
    }
}

/// The scale product is bounded by the full fee product, so checking the fee
/// product with two checked multiplications is exact.
proof fn lemma_scale_bounded_by_fee_product(cfg: Config)
    ensures
        cfg.droplets_per_nft * cfg.lamports_per_droplet <= cfg.droplets_per_nft
            * cfg.lamports_per_droplet * 10000,
{
    assert(cfg.droplets_per_nft * cfg.lamports_per_droplet <= cfg.droplets_per_nft
        * cfg.lamports_per_droplet * 10000) by (nonlinear_arith);
}

} // verus!
