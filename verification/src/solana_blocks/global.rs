//! Names for the plain types of the node's answer.

use crate::solana_blocks::encoded_transactions::Reward;
use crate::solana_blocks::errors::TransactionError;
use vstd::prelude::*;

verus! {

/// Seconds since the Unix epoch.
pub type UnixTimestamp = i64;

/// A token amount written out in decimal digits.
pub type StringAmount = String;

/// A token amount written out with its decimal point.
pub type StringDecimals = String;

/// The rewards of a block or of a transaction, in the node's order.
pub type Rewards = Vec<Reward>;

/// The number of a slot of the ledger.
pub type Slot = u64;

/// What the ledger made of a transaction.
pub type BlockResult<T> = Result<T, TransactionError>;

} // verus!
