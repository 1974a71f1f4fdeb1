//! Platform-wide settlement constants.

use vstd::prelude::*;

verus! {

/// Percentage of the entry stake retained by the platform account when a
/// winner is announced. Must lie in `[0, 100]` so that the fee never exceeds
/// the stake; see `states::lemma_settlement_conserves_stake`.
pub const PLATFORM_FEE_PERCENTAGE: u64 = 5;

} // verus!
