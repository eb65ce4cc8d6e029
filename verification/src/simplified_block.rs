//! The form in which a block is handed on, and the normaliser that produces
//! it from the node's answer.

pub mod block;
pub mod errors;
pub mod rpc;
pub mod transaction;
