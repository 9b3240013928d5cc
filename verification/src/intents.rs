use vstd::prelude::*;

verus! {

/// One instruction to the custody ledger.
///
/// The operations in this crate never move tokens themselves: each returns
/// the ordered sequence of intents that the enclosing ledger transaction
/// must execute, all or nothing. Token and account identities are the
/// ledger's addresses, abstracted to plain integers.
#[derive(Clone, Copy, Debug, PartialEq, Eq, Structural)]
pub enum LedgerIntent {
    /// Create the token account at `account` for `token` if it does not
    /// exist yet; nothing happens when it already does. Both operations
    /// create the accounts they move value into idempotently rather than
    /// assuming they pre-exist.
    EnsureAccount { token: u64, account: u64 },
    /// Move `amount` units of `token` between two token accounts.
    Transfer { token: u64, from: u64, to: u64, amount: u64 },
    /// Create `amount` new units of `token` in a token account.
    Mint { token: u64, to: u64, amount: u64 },
    /// Destroy `amount` units of `token` held by a token account.
    Burn { token: u64, from: u64, amount: u64 },
    /// Close a token account and refund its reclaimable storage cost.
    Close { account: u64, refund_to: u64 },
}

} // verus!
