use crate::config::Config;
use crate::errors::SolventError;
use crate::fees::{
    calculate_fees, lemma_fee_bounds, nft_droplet_value, spec_distributor_fee, spec_total_fee,
    spec_treasury_fee,
};
use crate::intents::LedgerIntent;
use crate::state::Bucket;
use vstd::prelude::*;

verus! {

/// The caller-supplied accounts of one redeem: the holder, the asset to
/// reclaim, the fee destinations, and the token accounts the ledger intents
/// move value between.
#[derive(Clone, Copy, Debug, PartialEq, Eq, Structural)]
pub struct RedeemNft {
    /// The redeeming holder.
    pub signer: u64,
    /// The custodied asset to reclaim.
    pub nft_mint: u64,
    /// The distributor's droplet token account, receiving its fee share.
    pub distributor_droplet_token_account: u64,
    /// The caller-supplied treasury identity; rejected unless it equals the
    /// configured treasury.
    pub solvent_treasury: u64,
    /// The treasury's droplet token account, receiving the rest of the fee.
    pub solvent_treasury_droplet_token_account: u64,
    /// The holder's droplet token account: burned from and charged the fee.
    pub signer_droplet_token_account: u64,
    /// The bucket's custody token account the asset leaves.
    pub solvent_nft_token_account: u64,
    /// Where the reclaimed asset goes.
    pub destination_nft_token_account: u64,
}

/// The ledger-recorded fact a successful redeem emits, for external
/// indexers.
#[derive(Clone, Copy, Debug, PartialEq, Eq, Structural)]
pub struct RedeemNftEvent {
    /// The redeeming holder.
    pub signer: u64,
    /// The reclaimed asset.
    pub nft_mint: u64,
    /// The bucket's fungible token.
    pub droplet_mint: u64,
    /// The holder's droplet token account the fee left.
    pub signer_droplet_token_account: u64,
    /// The account the asset was released to.
    pub destination_nft_token_account: u64,
    /// Whether the redeem consumed swap eligibility.
    pub swap: bool,
    /// The bucket's asset count after the redeem.
    pub num_nfts_in_bucket: u16,
}

/// The fee rate a redeem pays: the reduced swap rate when it consumes swap
/// eligibility, the standard redeem rate otherwise.
pub open spec fn redeem_fee_rate(cfg: Config, swap: bool) -> u16 {
    if swap {
        cfg.swap_fee_basis_points
    } else {
        cfg.redeem_fee_basis_points
    }
}

/// The first guard a redeem trips over, or `None` when every guard passes:
/// the custody record must exist, the treasury must be the configured one,
/// and a swap-fee redeem needs pending swap eligibility.
pub open spec fn redeem_check(
    cfg: Config,
    bucket: Bucket,
    accounts: RedeemNft,
    swap: bool,
) -> Option<SolventError> {
    if !bucket.holds_nft(accounts.nft_mint) {
        Some(SolventError::DepositRecordNotFound)
    } else if accounts.solvent_treasury != cfg.treasury {
        Some(SolventError::TreasuryInvalid)
    } else if swap && !bucket.swap_pending(accounts.signer) {
        Some(SolventError::SwapNotAllowed)
    } else {
        None
    }
}

/// The ledger intents of a successful redeem, in order: the two fee
/// destinations are created if absent, a plain redeem burns the droplet
/// value of one NFT from the holder, then the fee split goes to the
/// distributor and the treasury, the asset leaves custody, and the emptied
/// custody account is closed with its storage cost refunded to the holder.
pub open spec fn redeem_intents(
    cfg: Config,
    bucket: Bucket,
    accounts: RedeemNft,
    swap: bool,
) -> Seq<LedgerIntent> {
    let rate = redeem_fee_rate(cfg, swap);
    let prepare = seq![
        LedgerIntent::EnsureAccount {
            token: bucket.droplet_mint,
            account: accounts.distributor_droplet_token_account,
        },
        LedgerIntent::EnsureAccount {
            token: bucket.droplet_mint,
            account: accounts.solvent_treasury_droplet_token_account,
        },
    ];
    let settle = seq![
        LedgerIntent::Transfer {
            token: bucket.droplet_mint,
            from: accounts.signer_droplet_token_account,
            to: accounts.distributor_droplet_token_account,
            amount: spec_distributor_fee(cfg, rate) as u64,
        },
        LedgerIntent::Transfer {
            token: bucket.droplet_mint,
            from: accounts.signer_droplet_token_account,
            to: accounts.solvent_treasury_droplet_token_account,
            amount: spec_treasury_fee(cfg, rate) as u64,
        },
        LedgerIntent::Transfer {
            token: accounts.nft_mint,
            from: accounts.solvent_nft_token_account,
            to: accounts.destination_nft_token_account,
            amount: 1,
        },
        LedgerIntent::Close {
            account: accounts.solvent_nft_token_account,
            refund_to: accounts.signer,
        },
    ];
    if swap {
        prepare + settle
    } else {
        prepare + seq![
            LedgerIntent::Burn {
                token: bucket.droplet_mint,
                from: accounts.signer_droplet_token_account,
                amount: nft_droplet_value(cfg) as u64,
            },
        ] + settle
    }
}

/// The event a successful redeem emits, with the post-decrement counter.
pub open spec fn redeem_event(bucket: Bucket, accounts: RedeemNft, swap: bool) -> RedeemNftEvent {
    RedeemNftEvent {
        signer: accounts.signer,
        nft_mint: accounts.nft_mint,
        droplet_mint: bucket.droplet_mint,
        signer_droplet_token_account: accounts.signer_droplet_token_account,
        destination_nft_token_account: accounts.destination_nft_token_account,
        swap,
        num_nfts_in_bucket: (bucket.num_nfts_in_bucket - 1) as u16,
    }
}

/// Redeems a custodied NFT from the bucket.
///
/// When every guard of [`redeem_check`] passes, the holder's swap
/// eligibility is consumed (on a swap redeem) or its record merely ensured,
/// the custody record is destroyed, the counter is decremented, and the
/// returned intents burn or charge the holder's droplets and release the
/// asset. The fee split is computed exactly and checked; a mismatch would
/// abort, and the fee calculator's contract proves it never happens. A
/// rejected redeem changes nothing.
pub fn redeem_nft(
    bucket: &mut Bucket,
    cfg: &Config,
    accounts: &RedeemNft,
    swap: bool,
) -> (result: Result<(RedeemNftEvent, Vec<LedgerIntent>), SolventError>)
    requires
        old(bucket).wf(),
        cfg.wf(),
    ensures
        final(bucket).wf(),
        redeem_check(*cfg, *old(bucket), *accounts, swap) matches Some(err) ==> result == Err::<
            (RedeemNftEvent, Vec<LedgerIntent>),
            SolventError,
        >(err) && *final(bucket) == *old(bucket),
        redeem_check(*cfg, *old(bucket), *accounts, swap) is None ==> {
            &&& result is Ok
            &&& final(bucket).droplet_mint == old(bucket).droplet_mint
            &&& final(bucket).collection_info == old(bucket).collection_info
            &&& exists|i: int|
                0 <= i < old(bucket).deposits@.len() && old(bucket).deposits@[i].nft_mint
                    == accounts.nft_mint && final(bucket).deposits@ == old(
                    bucket,
                ).deposits@.remove(i)
            &&& !final(bucket).holds_nft(accounts.nft_mint)
            &&& final(bucket).num_nfts_in_bucket == old(bucket).num_nfts_in_bucket - 1
            &&& final(bucket).swap_flags() == if swap {
                old(bucket).swap_flags().insert(accounts.signer, false)
            } else if old(bucket).swap_flags().contains_key(accounts.signer) {
                old(bucket).swap_flags()
            } else {
                old(bucket).swap_flags().insert(accounts.signer, false)
            }
            &&& result->Ok_0.0 == redeem_event(*old(bucket), *accounts, swap)
            &&& result->Ok_0.1@ == redeem_intents(*cfg, *old(bucket), *accounts, swap)
        },
{
    let deposit_index: usize = match bucket.find_deposit(accounts.nft_mint) {
        Some(i) => i,
        None => {
            return Err(SolventError::DepositRecordNotFound);
        },
    };
    if accounts.solvent_treasury != cfg.treasury {
        return Err(SolventError::TreasuryInvalid);
    }
    if swap && !bucket.is_swap_pending(accounts.signer) {
        return Err(SolventError::SwapNotAllowed);
    }

    let fee_basis_points: u16 = if swap {
        cfg.swap_fee_basis_points
    } else {
        cfg.redeem_fee_basis_points
    };
    let fees = calculate_fees(cfg, fee_basis_points);
    if fees.distributor_fee + fees.treasury_fee != fees.total_fee {
        return Err(SolventError::FeeDistributionIncorrect);
    }

    if swap {
        bucket.upsert_swap_state(accounts.signer, false);
    } else {
        bucket.ensure_swap_record(accounts.signer);
    }

    let mut intents: Vec<LedgerIntent> = Vec::new();
    intents.push(
        LedgerIntent::EnsureAccount {
            token: bucket.droplet_mint,
            account: accounts.distributor_droplet_token_account,
        },
    );
    intents.push(
        LedgerIntent::EnsureAccount {
            token: bucket.droplet_mint,
            account: accounts.solvent_treasury_droplet_token_account,
        },
    );
    if !swap {
        proof {
            lemma_fee_bounds(*cfg, fee_basis_points);
        }
        let amount: u64 = cfg.droplets_per_nft * cfg.lamports_per_droplet;
        intents.push(
            LedgerIntent::Burn {
                token: bucket.droplet_mint,
                from: accounts.signer_droplet_token_account,
                amount,
            },
        );
    }
    intents.push(
        LedgerIntent::Transfer {
            token: bucket.droplet_mint,
            from: accounts.signer_droplet_token_account,
            to: accounts.distributor_droplet_token_account,
            amount: fees.distributor_fee,
        },
    );
    intents.push(
        LedgerIntent::Transfer {
            token: bucket.droplet_mint,
            from: accounts.signer_droplet_token_account,
            to: accounts.solvent_treasury_droplet_token_account,
            amount: fees.treasury_fee,
        },
    );
    intents.push(
        LedgerIntent::Transfer {
            token: accounts.nft_mint,
            from: accounts.solvent_nft_token_account,
            to: accounts.destination_nft_token_account,
            amount: 1,
        },
    );
    intents.push(
        LedgerIntent::Close {
            account: accounts.solvent_nft_token_account,
            refund_to: accounts.signer,
        },
    );

    bucket.deposits.remove(deposit_index);
    bucket.num_nfts_in_bucket = bucket.num_nfts_in_bucket - 1;

    let event = RedeemNftEvent {
        signer: accounts.signer,
        nft_mint: accounts.nft_mint,
        droplet_mint: bucket.droplet_mint,
        signer_droplet_token_account: accounts.signer_droplet_token_account,
        destination_nft_token_account: accounts.destination_nft_token_account,
        swap,
        num_nfts_in_bucket: bucket.num_nfts_in_bucket,
    };
    proof {
        assert(intents@ =~= redeem_intents(*cfg, *old(bucket), *accounts, swap));
        assert(bucket.deposits@ == old(bucket).deposits@.remove(deposit_index as int));
        assert(forall|a: int, b: int|
            0 <= a < b < bucket.deposits@.len() ==> bucket.deposits@[a].nft_mint
                != bucket.deposits@[b].nft_mint) by {
            assert(forall|k: int|
                0 <= k < bucket.deposits@.len() ==> bucket.deposits@[k] == if k
                    < deposit_index as int {
                    old(bucket).deposits@[k]
                } else {
                    old(bucket).deposits@[k + 1]
                });
        }
        assert(forall|k: int|
            0 <= k < bucket.deposits@.len() ==> (#[trigger] bucket.deposits@[k]).nft_mint
                != accounts.nft_mint) by {
            assert(forall|k: int|
                0 <= k < bucket.deposits@.len() ==> bucket.deposits@[k] == if k
                    < deposit_index as int {
                    old(bucket).deposits@[k]
                } else {
                    old(bucket).deposits@[k + 1]
                });
        }
    }
    Ok((event, intents))
}

} // verus!
