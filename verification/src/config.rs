use vstd::prelude::*;

verus! {

/// The runtime configuration: the one place where the concrete types behind
/// accounts, balances, counters and claimable content are chosen.  Every
/// module speaks of them through these names.
pub type AccountId = String;

/// Numeric type of account balances.
pub type Balance = u128;

/// Numeric type of the block counter.
pub type BlockNumber = u32;

/// Numeric type of the per-account sequence counter.
pub type Nonce = u32;

/// Key type identifying a claimable item in the claim registry.
pub type Content = String;

} // verus!
