use crate::config::Config;
use crate::errors::SolventError;
use crate::fees::{lemma_fee_bounds, nft_droplet_value};
use crate::intents::LedgerIntent;
use crate::state::{Bucket, DepositState, NftMetadata};
use vstd::prelude::*;

verus! {

/// The caller-supplied accounts of one deposit: the holder, the asset, its
/// metadata attestation, and the token accounts the ledger intents move
/// value between.
#[derive(Clone, Copy, Debug, PartialEq, Eq, Structural)]
pub struct DepositNft {
    /// The depositing holder.
    pub signer: u64,
    /// The asset being deposited.
    pub nft_mint: u64,
    /// What the asset's metadata record attests about collection
    /// membership.
    pub nft_metadata: NftMetadata,
    /// The holder's token account currently holding the asset.
    pub signer_nft_token_account: u64,
    /// The bucket's custody token account the asset moves into.
    pub solvent_nft_token_account: u64,
    /// Where freshly minted droplets go on a plain deposit.
    pub destination_droplet_token_account: u64,
}

/// The ledger-recorded fact a successful deposit emits, for external
/// indexers.
#[derive(Clone, Copy, Debug, PartialEq, Eq, Structural)]
pub struct DepositNftEvent {
    /// The depositing holder.
    pub signer: u64,
    /// The bucket's fungible token.
    pub droplet_mint: u64,
    /// The deposited asset.
    pub nft_mint: u64,
    /// The holder's token account the asset left.
    pub signer_nft_token_account: u64,
    /// The account droplets were minted to, meaningful when `swap` is
    /// false.
    pub destination_droplet_token_account: u64,
    /// Whether the deposit was made under swap intent.
    pub swap: bool,
    /// The bucket's asset count after the deposit.
    pub num_nfts_in_bucket: u16,
}

/// Admission control: the metadata record must be the asset's own, and must
/// attest verified membership in the bucket's declared collection.
pub open spec fn admission_ok(bucket: Bucket, accounts: DepositNft) -> bool {
    &&& accounts.nft_metadata.mint == accounts.nft_mint
    &&& accounts.nft_metadata.collection_verified
    &&& accounts.nft_metadata.collection == bucket.collection_info.collection_mint
}

/// The first guard a deposit trips over, or `None` when every guard passes:
/// a pending swap may not be stacked, the asset must pass admission control
/// and the exclusion list, must not already be in custody, and the counter
/// must have room.
pub open spec fn deposit_check(
    cfg: Config,
    bucket: Bucket,
    accounts: DepositNft,
    swap: bool,
) -> Option<SolventError> {
    if swap && bucket.swap_pending(accounts.signer) {
        Some(SolventError::SwapAlreadyPending)
    } else if !admission_ok(bucket, accounts) {
        Some(SolventError::CollectionVerificationFailed)
    } else if bucket.collection_info.spec_is_banned(accounts.nft_mint) {
        Some(SolventError::AssetBanned)
    } else if bucket.holds_nft(accounts.nft_mint) {
        Some(SolventError::AssetAlreadyDeposited)
    } else if bucket.num_nfts_in_bucket == u16::MAX {
        Some(SolventError::CounterOverflow)
    } else {
        None
    }
}

/// The ledger intents of a successful deposit, in order: the bucket's
/// custody token account is created if absent, the asset moves into
/// custody, and a plain deposit additionally mints the droplet value of one
/// NFT to the destination.
pub open spec fn deposit_intents(
    cfg: Config,
    bucket: Bucket,
    accounts: DepositNft,
    swap: bool,
) -> Seq<LedgerIntent> {
    let ensure_custody = LedgerIntent::EnsureAccount {
        token: accounts.nft_mint,
        account: accounts.solvent_nft_token_account,
    };
    let custody = LedgerIntent::Transfer {
        token: accounts.nft_mint,
        from: accounts.signer_nft_token_account,
        to: accounts.solvent_nft_token_account,
        amount: 1,
    };
    if swap {
        seq![ensure_custody, custody]
    } else {
        seq![
            ensure_custody,
            custody,
            LedgerIntent::Mint {
                token: bucket.droplet_mint,
                to: accounts.destination_droplet_token_account,
                amount: nft_droplet_value(cfg) as u64,
            },
        ]
    }
}

/// The event a successful deposit emits, with the post-increment counter.
pub open spec fn deposit_event(bucket: Bucket, accounts: DepositNft, swap: bool) -> DepositNftEvent {
    DepositNftEvent {
        signer: accounts.signer,
        droplet_mint: bucket.droplet_mint,
        nft_mint: accounts.nft_mint,
        signer_nft_token_account: accounts.signer_nft_token_account,
        destination_droplet_token_account: accounts.destination_droplet_token_account,
        swap,
        num_nfts_in_bucket: (bucket.num_nfts_in_bucket + 1) as u16,
    }
}

/// Deposits an NFT into the bucket.
///
/// When every guard of [`deposit_check`] passes, the custody record is
/// created, the holder's swap eligibility is set to `swap`, the counter is
/// incremented, and the returned intents move the asset into custody and,
/// on a plain deposit, mint the droplet value of one NFT. A rejected
/// deposit changes nothing.
pub fn deposit_nft(
    bucket: &mut Bucket,
    cfg: &Config,
    accounts: &DepositNft,
    swap: bool,
) -> (result: Result<(DepositNftEvent, Vec<LedgerIntent>), SolventError>)
    requires
        old(bucket).wf(),
        cfg.wf(),
    ensures
        final(bucket).wf(),
        deposit_check(*cfg, *old(bucket), *accounts, swap) matches Some(err) ==> result == Err::<
            (DepositNftEvent, Vec<LedgerIntent>),
            SolventError,
        >(err) && *final(bucket) == *old(bucket),
        deposit_check(*cfg, *old(bucket), *accounts, swap) is None ==> {
            &&& result is Ok
            &&& final(bucket).droplet_mint == old(bucket).droplet_mint
            &&& final(bucket).collection_info == old(bucket).collection_info
            &&& final(bucket).deposits@ == old(bucket).deposits@.push(
                (DepositState {
                    droplet_mint: old(bucket).droplet_mint,
                    nft_mint: accounts.nft_mint,
                }),
            )
            &&& final(bucket).holds_nft(accounts.nft_mint)
            &&& final(bucket).swap_flags() == old(bucket).swap_flags().insert(
                accounts.signer,
                swap,
            )
            &&& final(bucket).num_nfts_in_bucket == old(bucket).num_nfts_in_bucket + 1
            &&& result->Ok_0.0 == deposit_event(*old(bucket), *accounts, swap)
            &&& result->Ok_0.1@ == deposit_intents(*cfg, *old(bucket), *accounts, swap)
        },
{
    if swap && bucket.is_swap_pending(accounts.signer) {
        return Err(SolventError::SwapAlreadyPending);
    }
    let admitted = accounts.nft_metadata.mint == accounts.nft_mint
        && accounts.nft_metadata.collection_verified && accounts.nft_metadata.collection
        == bucket.collection_info.collection_mint;
    if !admitted {
        return Err(SolventError::CollectionVerificationFailed);
    }
    if bucket.collection_info.is_banned(accounts.nft_mint) {
        return Err(SolventError::AssetBanned);
    }
    if bucket.contains_nft(accounts.nft_mint) {
        return Err(SolventError::AssetAlreadyDeposited);
    }
    if bucket.num_nfts_in_bucket == u16::MAX {
        return Err(SolventError::CounterOverflow);
    }

    let record = DepositState { droplet_mint: bucket.droplet_mint, nft_mint: accounts.nft_mint };
    bucket.deposits.push(record);
    bucket.upsert_swap_state(accounts.signer, swap);
    bucket.num_nfts_in_bucket = bucket.num_nfts_in_bucket + 1;

    let mut intents: Vec<LedgerIntent> = Vec::new();
    intents.push(
        LedgerIntent::EnsureAccount {
            token: accounts.nft_mint,
            account: accounts.solvent_nft_token_account,
        },
    );
    intents.push(
        LedgerIntent::Transfer {
            token: accounts.nft_mint,
            from: accounts.signer_nft_token_account,
            to: accounts.solvent_nft_token_account,
            amount: 1,
        },
    );
    if !swap {
        proof {
            lemma_fee_bounds(*cfg, 0);
        }
        let amount: u64 = cfg.droplets_per_nft * cfg.lamports_per_droplet;
        intents.push(
            LedgerIntent::Mint {
                token: bucket.droplet_mint,
                to: accounts.destination_droplet_token_account,
                amount,
            },
        );
    }
    let event = DepositNftEvent {
        signer: accounts.signer,
        droplet_mint: bucket.droplet_mint,
        nft_mint: accounts.nft_mint,
        signer_nft_token_account: accounts.signer_nft_token_account,
        destination_droplet_token_account: accounts.destination_droplet_token_account,
        swap,
        num_nfts_in_bucket: bucket.num_nfts_in_bucket,
    };
    proof {
        assert(intents@ =~= deposit_intents(*cfg, *old(bucket), *accounts, swap));
        assert(bucket.deposits@[old(bucket).deposits@.len() as int].nft_mint == accounts.nft_mint);
        assert(bucket.deposits_wf());
    }
    Ok((event, intents))
}

} // verus!
