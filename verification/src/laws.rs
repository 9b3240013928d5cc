use crate::config::Config;
use crate::deposit::{deposit_check, deposit_intents, DepositNft};
use crate::errors::SolventError;
use crate::fees::{
    lemma_fee_bounds, lemma_fee_split_is_exact, nft_droplet_value, spec_distributor_fee,
    spec_total_fee, spec_treasury_fee,
};
use crate::intents::LedgerIntent;
use crate::redeem::{redeem_check, redeem_intents, RedeemNft};
use crate::state::Bucket;
use vstd::prelude::*;

verus! {

/// How one ledger intent changes the balance of `account` in units of
/// `token`.
pub open spec fn intent_delta(intent: LedgerIntent, token: u64, account: u64) -> int {
    match intent {
        LedgerIntent::EnsureAccount { .. } => 0,
        LedgerIntent::Transfer { token: t, from, to, amount } => if t == token {
            (if to == account {
                amount as int
            } else {
                0
            }) - (if from == account {
                amount as int
            } else {
                0
            })
        } else {
            0
        },
        LedgerIntent::Mint { token: t, to, amount } => if t == token && to == account {
            amount as int
        } else {
            0
        },
        LedgerIntent::Burn { token: t, from, amount } => if t == token && from == account {
            -(amount as int)
        } else {
            0
        },
        LedgerIntent::Close { .. } => 0,
    }
}

/// How a sequence of ledger intents, executed in order, changes the balance
/// of `account` in units of `token`.
pub open spec fn droplet_delta(intents: Seq<LedgerIntent>, token: u64, account: u64) -> int
    decreases intents.len(),
{
    if intents.len() == 0 {
        0
    } else {
        droplet_delta(intents.drop_last(), token, account) + intent_delta(
            intents.last(),
            token,
            account,
        )
    }
}

/// Appending one intent adds its delta to the sequence's delta.
pub proof fn lemma_droplet_delta_push(
    intents: Seq<LedgerIntent>,
    intent: LedgerIntent,
    token: u64,
    account: u64,
)
    ensures
        droplet_delta(intents.push(intent), token, account) == droplet_delta(
            intents,
            token,
            account,
        ) + intent_delta(intent, token, account),
{
    assert(intents.push(intent).drop_last() =~= intents);
    assert(intents.push(intent).last() == intent);
}

/// Law: in a well-formed bucket the asset counter equals the number of live
/// custody records. Both operations require and preserve well-formedness,
/// so this holds after every sequence of deposits and redeems.
pub proof fn lemma_counter_counts_records(bucket: Bucket)
    requires
        bucket.wf(),
    ensures
        bucket.num_nfts_in_bucket as int == bucket.deposits@.len(),
{
}

/// Law: a plain deposit followed by a plain redeem leaves the holder's
/// droplet balance exactly one standard redeem fee below where it started.
/// The deposit mints the droplet value of one NFT to the holder, the redeem
/// burns the same amount and charges the fee split on top, and the split
/// adds up exactly.
///
/// `bucket_at_deposit` and `bucket_at_redeem` are the bucket at the two
/// transactions; only its fungible token identity matters here. The law
/// speaks of the holder's own droplet account, so the distributor's and the
/// treasury's fee accounts must be other accounts, and an asset is never
/// the bucket's fungible token itself.
pub proof fn lemma_round_trip_costs_redeem_fee(
    cfg: Config,
    bucket_at_deposit: Bucket,
    bucket_at_redeem: Bucket,
    deposit_accounts: DepositNft,
    redeem_accounts: RedeemNft,
)
    requires
        cfg.wf(),
        bucket_at_redeem.droplet_mint == bucket_at_deposit.droplet_mint,
        deposit_accounts.nft_mint != bucket_at_deposit.droplet_mint,
        redeem_accounts.nft_mint != bucket_at_deposit.droplet_mint,
        redeem_accounts.signer_droplet_token_account
            == deposit_accounts.destination_droplet_token_account,
        redeem_accounts.distributor_droplet_token_account
            != deposit_accounts.destination_droplet_token_account,
        redeem_accounts.solvent_treasury_droplet_token_account
            != deposit_accounts.destination_droplet_token_account,
    ensures
        droplet_delta(
            deposit_intents(cfg, bucket_at_deposit, deposit_accounts, false),
            bucket_at_deposit.droplet_mint,
            deposit_accounts.destination_droplet_token_account,
        ) + droplet_delta(
            redeem_intents(cfg, bucket_at_redeem, redeem_accounts, false),
            bucket_at_deposit.droplet_mint,
            deposit_accounts.destination_droplet_token_account,
        ) == -spec_total_fee(cfg, cfg.redeem_fee_basis_points),
{
    let token = bucket_at_deposit.droplet_mint;
    let holder = deposit_accounts.destination_droplet_token_account;
    let rate = cfg.redeem_fee_basis_points;
    lemma_fee_bounds(cfg, rate);
    lemma_fee_split_is_exact(cfg, rate);

    let ensure_custody = LedgerIntent::EnsureAccount {
        token: deposit_accounts.nft_mint,
        account: deposit_accounts.solvent_nft_token_account,
    };
    let custody_in = LedgerIntent::Transfer {
        token: deposit_accounts.nft_mint,
        from: deposit_accounts.signer_nft_token_account,
        to: deposit_accounts.solvent_nft_token_account,
        amount: 1,
    };
    let mint = LedgerIntent::Mint {
        token,
        to: holder,
        amount: nft_droplet_value(cfg) as u64,
    };
    let empty = Seq::<LedgerIntent>::empty();
    assert(deposit_intents(cfg, bucket_at_deposit, deposit_accounts, false) =~= empty.push(
        ensure_custody,
    ).push(custody_in).push(mint));
    lemma_droplet_delta_push(empty, ensure_custody, token, holder);
    lemma_droplet_delta_push(empty.push(ensure_custody), custody_in, token, holder);
    lemma_droplet_delta_push(empty.push(ensure_custody).push(custody_in), mint, token, holder);
    assert(droplet_delta(
        deposit_intents(cfg, bucket_at_deposit, deposit_accounts, false),
        token,
        holder,
    ) == nft_droplet_value(cfg));

    let ensure_distributor = LedgerIntent::EnsureAccount {
        token,
        account: redeem_accounts.distributor_droplet_token_account,
    };
    let ensure_treasury = LedgerIntent::EnsureAccount {
        token,
        account: redeem_accounts.solvent_treasury_droplet_token_account,
    };
    let burn = LedgerIntent::Burn {
        token,
        from: redeem_accounts.signer_droplet_token_account,
        amount: nft_droplet_value(cfg) as u64,
    };
    let pay_distributor = LedgerIntent::Transfer {
        token,
        from: redeem_accounts.signer_droplet_token_account,
        to: redeem_accounts.distributor_droplet_token_account,
        amount: spec_distributor_fee(cfg, rate) as u64,
    };
    let pay_treasury = LedgerIntent::Transfer {
        token,
        from: redeem_accounts.signer_droplet_token_account,
        to: redeem_accounts.solvent_treasury_droplet_token_account,
        amount: spec_treasury_fee(cfg, rate) as u64,
    };
    let custody_out = LedgerIntent::Transfer {
        token: redeem_accounts.nft_mint,
        from: redeem_accounts.solvent_nft_token_account,
        to: redeem_accounts.destination_nft_token_account,
        amount: 1,
    };
    let close = LedgerIntent::Close {
        account: redeem_accounts.solvent_nft_token_account,
        refund_to: redeem_accounts.signer,
    };
    let step1 = empty.push(ensure_distributor);
    let step2 = step1.push(ensure_treasury);
    let step3 = step2.push(burn);
    let step4 = step3.push(pay_distributor);
    let step5 = step4.push(pay_treasury);
    let step6 = step5.push(custody_out);
    let step7 = step6.push(close);
    assert(redeem_intents(cfg, bucket_at_redeem, redeem_accounts, false) =~= step7);
    lemma_droplet_delta_push(empty, ensure_distributor, token, holder);
    lemma_droplet_delta_push(step1, ensure_treasury, token, holder);
    lemma_droplet_delta_push(step2, burn, token, holder);
    lemma_droplet_delta_push(step3, pay_distributor, token, holder);
    lemma_droplet_delta_push(step4, pay_treasury, token, holder);
    lemma_droplet_delta_push(step5, custody_out, token, holder);
    lemma_droplet_delta_push(step6, close, token, holder);
    assert(droplet_delta(
        redeem_intents(cfg, bucket_at_redeem, redeem_accounts, false),
        token,
        holder,
    ) == -nft_droplet_value(cfg) - spec_distributor_fee(cfg, rate)
        - spec_treasury_fee(cfg, rate));
}

/// Law: after a holder's swap-intent deposit is accepted, a second
/// swap-intent deposit by the same holder is rejected as a pending swap,
/// whatever asset it offers, until the matching redeem clears the flag.
/// `bucket_after.swap_flags()` is constrained exactly as `deposit_nft`
/// ensures it after an accepted swap-intent deposit.
pub proof fn lemma_swap_intent_cannot_stack(
    cfg: Config,
    bucket_before: Bucket,
    bucket_after: Bucket,
    first: DepositNft,
    second: DepositNft,
)
    requires
        deposit_check(cfg, bucket_before, first, true) is None,
        bucket_after.swap_flags() == bucket_before.swap_flags().insert(first.signer, true),
        second.signer == first.signer,
    ensures
        deposit_check(cfg, bucket_after, second, true) == Some(SolventError::SwapAlreadyPending),
{
    assert(bucket_after.swap_pending(second.signer));
}

/// Law: a successful swap-fee redeem consumes the holder's eligibility, so
/// a second swap-fee redeem by the same holder is rejected: eligibility can
/// never be observed twice. `bucket_after.swap_flags()` is constrained
/// exactly as `redeem_nft` ensures it after an accepted swap-fee redeem.
pub proof fn lemma_swap_eligibility_consumed_once(
    cfg: Config,
    bucket_before: Bucket,
    bucket_after: Bucket,
    first: RedeemNft,
    second: RedeemNft,
)
    requires
        redeem_check(cfg, bucket_before, first, true) is None,
        bucket_after.swap_flags() == bucket_before.swap_flags().insert(first.signer, false),
        second.signer == first.signer,
    ensures
        redeem_check(cfg, bucket_after, second, true) is Some,
        bucket_after.holds_nft(second.nft_mint) && second.solvent_treasury == cfg.treasury
            ==> redeem_check(cfg, bucket_after, second, true) == Some(
            SolventError::SwapNotAllowed,
        ),
{
    assert(!bucket_after.swap_pending(second.signer));
}

/// Law: a swap-fee redeem by a holder with no pending swap-intent deposit
/// is always rejected; once the custody record exists and the treasury
/// matches, the rejection is the not-allowed error.
pub proof fn lemma_swap_redeem_needs_eligibility(
    cfg: Config,
    bucket: Bucket,
    accounts: RedeemNft,
)
    requires
        !bucket.swap_pending(accounts.signer),
    ensures
        redeem_check(cfg, bucket, accounts, true) is Some,
        bucket.holds_nft(accounts.nft_mint) && accounts.solvent_treasury == cfg.treasury
            ==> redeem_check(cfg, bucket, accounts, true) == Some(SolventError::SwapNotAllowed),
{
}

} // verus!
