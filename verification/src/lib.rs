//! Blocks of a ledger node, from the node's JSON to a small, stable form.
//!
//! [`solana_blocks`] models what the node writes, in all the shapes in which
//! it writes it. [`simplified_block`] holds the form that is handed on and the
//! normaliser that produces it. [`wire`] says how each type is written as JSON
//! and read back, over the JSON trees of [`json`].

pub mod json;
pub mod simplified_block;
pub mod solana_blocks;
pub mod text;
pub mod wire;

pub use json::{Number, Value, ValueView};
pub use simplified_block::block::{ConfirmedBlock, ConfirmedBlockView};
pub use simplified_block::errors::{SolProbeError, SolProbeResult};
pub use simplified_block::rpc::RpcRequest;
pub use simplified_block::transaction::{
    Message, MessageView, Metadata, MetadataView, Reward, RewardType, TokenAmount,
    TokenAmountView, TokenBalance, TokenBalanceView, Transaction, TransactionView,
};
pub use solana_blocks::errors::{
    InstructionError, InstructionErrorView, TransactionError, TransactionErrorView,
};
pub use solana_blocks::global::{Rewards, StringAmount, StringDecimals, UnixTimestamp};
pub use wire::Wire;
