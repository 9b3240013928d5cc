use solvent_protocol::config::Config;
use solvent_protocol::deposit::{deposit_nft, DepositNft};
use solvent_protocol::errors::SolventError;
use solvent_protocol::intents::LedgerIntent;
use solvent_protocol::redeem::{redeem_nft, RedeemNft};
use solvent_protocol::state::{Bucket, CollectionInfo, NftMetadata};

const DROPLET_MINT: u64 = 11;
const COLLECTION: u64 = 5;
const TREASURY: u64 = 7;

fn config() -> Config {
    Config {
        droplets_per_nft: 1,
        lamports_per_droplet: 1_000_000_000,
        redeem_fee_basis_points: 250,
        swap_fee_basis_points: 50,
        distributor_fee_basis_points: 5000,
        treasury: TREASURY,
    }
}

fn empty_bucket() -> Bucket {
    Bucket::new(
        DROPLET_MINT,
        CollectionInfo { collection_mint: COLLECTION, banned_nfts: Vec::new() },
    )
}

fn deposit_accounts(signer: u64, nft_mint: u64) -> DepositNft {
    DepositNft {
        signer,
        nft_mint,
        nft_metadata: NftMetadata { mint: nft_mint, collection: COLLECTION, collection_verified: true },
        signer_nft_token_account: 200,
        solvent_nft_token_account: 201,
        destination_droplet_token_account: 202,
    }
}

fn redeem_accounts(signer: u64, nft_mint: u64) -> RedeemNft {
    RedeemNft {
        signer,
        nft_mint,
        distributor_droplet_token_account: 300,
        solvent_treasury: TREASURY,
        solvent_treasury_droplet_token_account: 301,
        signer_droplet_token_account: 202,
        solvent_nft_token_account: 201,
        destination_nft_token_account: 203,
    }
}

#[test]
fn deposit_then_redeem_round_trip_state() {
    let cfg = config();
    let mut bucket = empty_bucket();
    assert_eq!(bucket.num_nfts_in_bucket, 0);

    let (event, intents) = deposit_nft(&mut bucket, &cfg, &deposit_accounts(100, 42), false)
        .expect("deposit into an empty bucket must succeed");
    assert_eq!(bucket.num_nfts_in_bucket, 1);
    assert!(bucket.contains_nft(42));
    assert_eq!(event.num_nfts_in_bucket, 1);
    assert_eq!(event.signer, 100);
    assert_eq!(event.droplet_mint, DROPLET_MINT);
    assert_eq!(event.nft_mint, 42);
    assert!(!event.swap);
    assert_eq!(
        intents,
        vec![
            LedgerIntent::EnsureAccount { token: 42, account: 201 },
            LedgerIntent::Transfer { token: 42, from: 200, to: 201, amount: 1 },
            LedgerIntent::Mint { token: DROPLET_MINT, to: 202, amount: 1_000_000_000 },
        ]
    );

    let (event, intents) = redeem_nft(&mut bucket, &cfg, &redeem_accounts(100, 42), false)
        .expect("redeeming the custodied asset must succeed");
    assert_eq!(bucket.num_nfts_in_bucket, 0);
    assert!(!bucket.contains_nft(42));
    assert_eq!(event.num_nfts_in_bucket, 0);
    assert_eq!(event.nft_mint, 42);
    assert!(!event.swap);
    assert_eq!(
        intents,
        vec![
            LedgerIntent::EnsureAccount { token: DROPLET_MINT, account: 300 },
            LedgerIntent::EnsureAccount { token: DROPLET_MINT, account: 301 },
            LedgerIntent::Burn { token: DROPLET_MINT, from: 202, amount: 1_000_000_000 },
            LedgerIntent::Transfer { token: DROPLET_MINT, from: 202, to: 300, amount: 12_500_000 },
            LedgerIntent::Transfer { token: DROPLET_MINT, from: 202, to: 301, amount: 12_500_000 },
            LedgerIntent::Transfer { token: 42, from: 201, to: 203, amount: 1 },
            LedgerIntent::Close { account: 201, refund_to: 100 },
        ]
    );
}

#[test]
fn swap_intent_deposit_mints_nothing() {
    let cfg = config();
    let mut bucket = empty_bucket();
    let (event, intents) = deposit_nft(&mut bucket, &cfg, &deposit_accounts(100, 42), true)
        .expect("swap-intent deposit must succeed");
    assert!(event.swap);
    assert_eq!(
        intents,
        vec![
            LedgerIntent::EnsureAccount { token: 42, account: 201 },
            LedgerIntent::Transfer { token: 42, from: 200, to: 201, amount: 1 },
        ]
    );
    assert!(bucket.is_swap_pending(100));
}

#[test]
fn swap_intent_cannot_stack() {
    let cfg = config();
    let mut bucket = empty_bucket();
    deposit_nft(&mut bucket, &cfg, &deposit_accounts(100, 42), true).unwrap();
    let second = deposit_nft(&mut bucket, &cfg, &deposit_accounts(100, 43), true);
    assert_eq!(second, Err(SolventError::SwapAlreadyPending));
    // The failed attempt changed nothing.
    assert_eq!(bucket.num_nfts_in_bucket, 1);
    assert!(!bucket.contains_nft(43));
}

#[test]
fn swap_redeem_consumes_eligibility_at_reduced_fee() {
    let cfg = config();
    let mut bucket = empty_bucket();
    deposit_nft(&mut bucket, &cfg, &deposit_accounts(100, 42), true).unwrap();

    // The swap completion may reclaim a different asset than was deposited.
    deposit_nft(&mut bucket, &cfg, &deposit_accounts(101, 77), false).unwrap();
    let (event, intents) = redeem_nft(&mut bucket, &cfg, &redeem_accounts(100, 77), true)
        .expect("swap-eligible redeem must succeed");
    assert!(event.swap);
    // No burn: droplets are neither minted nor burned across a swap; the
    // fee is charged at the reduced swap rate.
    assert_eq!(
        intents,
        vec![
            LedgerIntent::EnsureAccount { token: DROPLET_MINT, account: 300 },
            LedgerIntent::EnsureAccount { token: DROPLET_MINT, account: 301 },
            LedgerIntent::Transfer { token: DROPLET_MINT, from: 202, to: 300, amount: 2_500_000 },
            LedgerIntent::Transfer { token: DROPLET_MINT, from: 202, to: 301, amount: 2_500_000 },
            LedgerIntent::Transfer { token: 77, from: 201, to: 203, amount: 1 },
            LedgerIntent::Close { account: 201, refund_to: 100 },
        ]
    );
    assert!(!bucket.is_swap_pending(100));

    // Eligibility is spent: a second swap-fee redeem is rejected.
    let again = redeem_nft(&mut bucket, &cfg, &redeem_accounts(100, 42), true);
    assert_eq!(again, Err(SolventError::SwapNotAllowed));
}

#[test]
fn swap_redeem_without_eligibility_fails() {
    let cfg = config();
    let mut bucket = empty_bucket();
    deposit_nft(&mut bucket, &cfg, &deposit_accounts(100, 42), false).unwrap();
    let result = redeem_nft(&mut bucket, &cfg, &redeem_accounts(100, 42), true);
    assert_eq!(result, Err(SolventError::SwapNotAllowed));
    // A plain-fee redeem still goes through afterwards.
    assert!(redeem_nft(&mut bucket, &cfg, &redeem_accounts(100, 42), false).is_ok());
}

#[test]
fn plain_deposit_clears_pending_swap_intent() {
    let cfg = config();
    let mut bucket = empty_bucket();
    deposit_nft(&mut bucket, &cfg, &deposit_accounts(100, 42), true).unwrap();
    assert!(bucket.is_swap_pending(100));
    // The upsert writes the requested flag, so a plain deposit resets it.
    deposit_nft(&mut bucket, &cfg, &deposit_accounts(100, 43), false).unwrap();
    assert!(!bucket.is_swap_pending(100));
}

#[test]
fn plain_redeem_keeps_pending_swap_intent() {
    let cfg = config();
    let mut bucket = empty_bucket();
    deposit_nft(&mut bucket, &cfg, &deposit_accounts(100, 42), true).unwrap();
    deposit_nft(&mut bucket, &cfg, &deposit_accounts(101, 77), false).unwrap();
    redeem_nft(&mut bucket, &cfg, &redeem_accounts(100, 77), false).unwrap();
    assert!(bucket.is_swap_pending(100));
}

#[test]
fn redeem_unknown_asset_fails_not_found() {
    let cfg = config();
    let mut bucket = empty_bucket();
    let result = redeem_nft(&mut bucket, &cfg, &redeem_accounts(100, 42), false);
    assert_eq!(result, Err(SolventError::DepositRecordNotFound));
}

#[test]
fn redeem_twice_fails_not_found() {
    let cfg = config();
    let mut bucket = empty_bucket();
    deposit_nft(&mut bucket, &cfg, &deposit_accounts(100, 42), false).unwrap();
    redeem_nft(&mut bucket, &cfg, &redeem_accounts(100, 42), false).unwrap();
    let result = redeem_nft(&mut bucket, &cfg, &redeem_accounts(100, 42), false);
    assert_eq!(result, Err(SolventError::DepositRecordNotFound));
}

#[test]
fn redeem_rejects_wrong_treasury() {
    let cfg = config();
    let mut bucket = empty_bucket();
    deposit_nft(&mut bucket, &cfg, &deposit_accounts(100, 42), false).unwrap();
    let mut accounts = redeem_accounts(100, 42);
    accounts.solvent_treasury = TREASURY + 1;
    let result = redeem_nft(&mut bucket, &cfg, &accounts, false);
    assert_eq!(result, Err(SolventError::TreasuryInvalid));
    assert!(bucket.contains_nft(42));
}

#[test]
fn deposit_rejects_foreign_collection() {
    let cfg = config();
    let mut bucket = empty_bucket();
    let mut accounts = deposit_accounts(100, 42);
    accounts.nft_metadata.collection = COLLECTION + 1;
    let result = deposit_nft(&mut bucket, &cfg, &accounts, false);
    assert_eq!(result, Err(SolventError::CollectionVerificationFailed));
}

#[test]
fn deposit_rejects_unverified_membership() {
    let cfg = config();
    let mut bucket = empty_bucket();
    let mut accounts = deposit_accounts(100, 42);
    accounts.nft_metadata.collection_verified = false;
    let result = deposit_nft(&mut bucket, &cfg, &accounts, false);
    assert_eq!(result, Err(SolventError::CollectionVerificationFailed));
}

#[test]
fn deposit_rejects_metadata_of_other_asset() {
    let cfg = config();
    let mut bucket = empty_bucket();
    let mut accounts = deposit_accounts(100, 42);
    accounts.nft_metadata.mint = 43;
    let result = deposit_nft(&mut bucket, &cfg, &accounts, false);
    assert_eq!(result, Err(SolventError::CollectionVerificationFailed));
}

#[test]
fn deposit_rejects_banned_asset() {
    let cfg = config();
    let mut bucket = Bucket::new(
        DROPLET_MINT,
        CollectionInfo { collection_mint: COLLECTION, banned_nfts: vec![41, 42] },
    );
    let result = deposit_nft(&mut bucket, &cfg, &deposit_accounts(100, 42), false);
    assert_eq!(result, Err(SolventError::AssetBanned));
    assert!(deposit_nft(&mut bucket, &cfg, &deposit_accounts(100, 43), false).is_ok());
}

#[test]
fn deposit_rejects_asset_already_in_custody() {
    let cfg = config();
    let mut bucket = empty_bucket();
    deposit_nft(&mut bucket, &cfg, &deposit_accounts(100, 42), false).unwrap();
    let result = deposit_nft(&mut bucket, &cfg, &deposit_accounts(101, 42), false);
    assert_eq!(result, Err(SolventError::AssetAlreadyDeposited));
    assert_eq!(bucket.num_nfts_in_bucket, 1);
}
