use vstd::prelude::*;
use crate::keys::AccountKey;

verus! {

/// A token holding account as the auction engine reads it.
#[derive(Clone, Copy, Debug, PartialEq, Eq)]
pub struct TokenAccount {
    pub key: AccountKey,
    pub mint: AccountKey,
    pub owner: AccountKey,
    pub amount: u64,
}

/// One request to the token service. An operation hands back its requests
/// in the order they must run; the runtime commits the operation's records
/// only if every one of them succeeds.
#[derive(Clone, Copy, Debug, PartialEq, Eq)]
pub enum FundMovement {
    /// Move `amount` from `from` to `to`, signed by `authority`.
    Transfer { from: AccountKey, to: AccountKey, authority: AccountKey, amount: u64 },
    /// Close `account`, sending what it still holds to `destination`.
    Close { account: AccountKey, destination: AccountKey, authority: AccountKey },
}

/// How much running `ms` adds to the balance of the account at `acct`
/// (negative when it takes more out than it brings in). A close is counted
/// by `closes`, not here.
pub open spec fn net_flow(ms: Seq<FundMovement>, acct: Seq<u8>) -> int
    decreases ms.len(),
{
    if ms.len() == 0 {
        0
    } else {
        net_flow(ms.drop_last(), acct) + flow_of(ms.last(), acct)
    }
}

/// How much one movement adds to the balance of the account at `acct`.
pub open spec fn flow_of(m: FundMovement, acct: Seq<u8>) -> int {
    match m {
        FundMovement::Transfer { from, to, amount, .. } => (if to@ == acct { amount as int } else { 0 }) - (if from@
            == acct {
            amount as int
        } else {
            0
        }),
        FundMovement::Close { .. } => 0,
    }
}

/// Whether `m` closes the account at `acct`.
pub open spec fn is_close_of(m: FundMovement, acct: Seq<u8>) -> bool {
    m matches FundMovement::Close { account, .. } && account@ == acct
}

/// Whether `ms` closes the account at `acct`.
pub open spec fn closes(ms: Seq<FundMovement>, acct: Seq<u8>) -> bool {
    exists|i: int| 0 <= i < ms.len() && is_close_of(#[trigger] ms[i], acct)
}

} // verus!
