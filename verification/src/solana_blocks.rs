//! The node's answer as it is written: every encoding of a transaction,
//! both forms of a message, and the ledger's vocabulary of errors.

pub mod confirmed_blocks;
pub mod encoded_transactions;
pub mod errors;
pub mod global;
pub mod instructions;
pub mod messages;
