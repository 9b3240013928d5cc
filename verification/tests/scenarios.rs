use solvent_protocol::config::Config;
use solvent_protocol::deposit::{deposit_nft, DepositNft};
use solvent_protocol::errors::SolventError;
use solvent_protocol::intents::LedgerIntent;
use solvent_protocol::redeem::{redeem_nft, RedeemNft};
use solvent_protocol::state::{Bucket, CollectionInfo, DepositState, NftMetadata};

const DROPLET_MINT: u64 = 11;
const COLLECTION: u64 = 5;
const TREASURY: u64 = 7;
const HOLDER_DROPLET_ACCOUNT: u64 = 202;

fn config() -> Config {
    Config {
        droplets_per_nft: 1,
        lamports_per_droplet: 1_000_000_000,
        redeem_fee_basis_points: 250,
        swap_fee_basis_points: 50,
        distributor_fee_basis_points: 5000,
        treasury: TREASURY,
    }
}

/// How the intents, executed in order, change the balance of `account` in
/// units of `token`: the arithmetic the ledger collaborator would perform.
fn balance_change(intents: &[LedgerIntent], token: u64, account: u64) -> i128 {
    let mut change: i128 = 0;
    for intent in intents {
        match *intent {
            LedgerIntent::EnsureAccount { .. } => {}
            LedgerIntent::Transfer { token: t, from, to, amount } => {
                if t == token && to == account {
                    change += amount as i128;
                }
                if t == token && from == account {
                    change -= amount as i128;
                }
            }
            LedgerIntent::Mint { token: t, to, amount } => {
                if t == token && to == account {
                    change += amount as i128;
                }
            }
            LedgerIntent::Burn { token: t, from, amount } => {
                if t == token && from == account {
                    change -= amount as i128;
                }
            }
            LedgerIntent::Close { .. } => {}
        }
    }
    change
}

#[test]
fn round_trip_costs_exactly_the_redeem_fee() {
    let cfg = config();
    let mut bucket = Bucket::new(
        DROPLET_MINT,
        CollectionInfo { collection_mint: COLLECTION, banned_nfts: Vec::new() },
    );
    let deposit_accounts = DepositNft {
        signer: 100,
        nft_mint: 42,
        nft_metadata: NftMetadata { mint: 42, collection: COLLECTION, collection_verified: true },
        signer_nft_token_account: 200,
        solvent_nft_token_account: 201,
        destination_droplet_token_account: HOLDER_DROPLET_ACCOUNT,
    };
    let redeem_accounts = RedeemNft {
        signer: 100,
        nft_mint: 42,
        distributor_droplet_token_account: 300,
        solvent_treasury: TREASURY,
        solvent_treasury_droplet_token_account: 301,
        signer_droplet_token_account: HOLDER_DROPLET_ACCOUNT,
        solvent_nft_token_account: 201,
        destination_nft_token_account: 203,
    };

    let (_, deposit_intents) = deposit_nft(&mut bucket, &cfg, &deposit_accounts, false).unwrap();
    let (_, redeem_intents) = redeem_nft(&mut bucket, &cfg, &redeem_accounts, false).unwrap();

    let holder_change = balance_change(&deposit_intents, DROPLET_MINT, HOLDER_DROPLET_ACCOUNT)
        + balance_change(&redeem_intents, DROPLET_MINT, HOLDER_DROPLET_ACCOUNT);
    // total_fee = 1 * 1_000_000_000 * 250 / 10_000
    assert_eq!(holder_change, -25_000_000);

    // The fee lands with the distributor and the treasury, split exactly.
    let distributor_change = balance_change(&redeem_intents, DROPLET_MINT, 300);
    let treasury_change = balance_change(&redeem_intents, DROPLET_MINT, 301);
    assert_eq!(distributor_change, 12_500_000);
    assert_eq!(treasury_change, 12_500_000);
    assert_eq!(distributor_change + treasury_change, 25_000_000);
}

#[test]
fn deposit_into_full_bucket_overflows_counter() {
    let cfg = config();
    let mut deposits: Vec<DepositState> = Vec::new();
    for nft_mint in 0..u16::MAX as u64 {
        deposits.push(DepositState { droplet_mint: DROPLET_MINT, nft_mint });
    }
    let mut bucket = Bucket {
        droplet_mint: DROPLET_MINT,
        collection_info: CollectionInfo { collection_mint: COLLECTION, banned_nfts: Vec::new() },
        num_nfts_in_bucket: u16::MAX,
        deposits,
        swaps: Vec::new(),
    };
    let accounts = DepositNft {
        signer: 100,
        nft_mint: 100_000,
        nft_metadata: NftMetadata {
            mint: 100_000,
            collection: COLLECTION,
            collection_verified: true,
        },
        signer_nft_token_account: 200,
        solvent_nft_token_account: 201,
        destination_droplet_token_account: HOLDER_DROPLET_ACCOUNT,
    };
    let result = deposit_nft(&mut bucket, &cfg, &accounts, false);
    assert_eq!(result, Err(SolventError::CounterOverflow));
    assert_eq!(bucket.num_nfts_in_bucket, u16::MAX);
}
