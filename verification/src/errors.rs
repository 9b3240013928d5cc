use vstd::prelude::*;

verus! {

/// Everything that can make a deposit or redeem abort.
///
/// A failed operation changes no state: the enclosing ledger transaction
/// commits all of an operation's effects or none of them, and the verified
/// operations return an error before touching the bucket.
#[derive(Clone, Copy, Debug, PartialEq, Eq, Structural)]
pub enum SolventError {
    /// The holder already has an outstanding swap-intent deposit on this
    /// bucket and asked to queue a second one.
    SwapAlreadyPending,
    /// The asset's metadata does not prove membership in the bucket's
    /// declared collection.
    CollectionVerificationFailed,
    /// The asset is on the exclusion list and may not enter the bucket.
    AssetBanned,
    /// A custody record for this asset already exists: the asset is already
    /// in the bucket.
    AssetAlreadyDeposited,
    /// Incrementing the bucket's asset counter would overflow it.
    CounterOverflow,
    /// No custody record exists for the asset being redeemed.
    DepositRecordNotFound,
    /// The caller-supplied treasury identity does not match the configured
    /// treasury.
    TreasuryInvalid,
    /// The holder asked for a swap-fee redeem without a pending swap-intent
    /// deposit.
    SwapNotAllowed,
    /// The fee split does not add up to the total fee. The fee calculator's
    /// contract proves this can never be returned; the check is kept because
    /// a violation must abort loudly, never be corrected silently.
    FeeDistributionIncorrect,
}

} // verus!
