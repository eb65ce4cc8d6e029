//! The catalogue of the node's methods.

use vstd::prelude::*;

verus! {

/// The methods of the ledger node's JSON-RPC interface.
///
/// `Custom` carries a method name that the catalogue does not list.
#[derive(Debug, PartialEq, Eq, Hash, Clone, Copy)]
pub enum RpcRequest {
    DeregisterNode,
    GetAccountInfo,
    GetBalance,
    GetBlock,
    GetBlockHeight,
    GetBlockProduction,
    GetBlocks,
    GetBlocksWithLimit,
    GetBlockTime,
    GetClusterNodes,
    GetEpochInfo,
    GetEpochSchedule,
    GetFeeCalculatorForBlockhash,
    GetFeeRateGovernor,
    GetFees,
    GetFirstAvailableBlock,
    GetGenesisHash,
    GetHealth,
    GetIdentity,
    GetInflationGovernor,
    GetInflationRate,
    GetInflationReward,
    GetLargestAccounts,
    GetLeaderSchedule,
    GetMaxRetransmitSlot,
    GetMaxShredInsertSlot,
    GetMinimumBalanceForRentExemption,
    GetMultipleAccounts,
    GetProgramAccounts,
    GetRecentBlockhash,
    GetRecentPerformanceSamples,
    GetSnapshotSlot,
    GetSignaturesForAddress,
    GetSignatureStatuses,
    GetSlot,
    GetSlotLeader,
    GetSlotLeaders,
    GetStorageTurn,
    GetStorageTurnRate,
    GetSlotsPerSegment,
    GetStakeActivation,
    GetStoragePubkeysForSlot,
    GetSupply,
    GetTokenAccountBalance,
    GetTokenAccountsByDelegate,
    GetTokenAccountsByOwner,
    GetTokenSupply,
    GetTransaction,
    GetTransactionCount,
    GetVersion,
    GetVoteAccounts,
    MinimumLedgerSlot,
    RegisterNode,
    RequestAirdrop,
    SendTransaction,
    SimulateTransaction,
    SignVote,
    Custom { method: &'static str },
}

impl RpcRequest {
    /// The method name as it is written in the `method` field of a request.
    pub open spec fn method_name(self) -> Seq<char> {
        match self {
            RpcRequest::DeregisterNode => "deregisterNode"@,
            RpcRequest::GetAccountInfo => "getAccountInfo"@,
            RpcRequest::GetBalance => "getBalance"@,
            RpcRequest::GetBlock => "getBlock"@,
            RpcRequest::GetBlockHeight => "getBlockHeight"@,
            RpcRequest::GetBlockProduction => "getBlockProduction"@,
            RpcRequest::GetBlocks => "getBlocks"@,
            RpcRequest::GetBlocksWithLimit => "getBlocksWithLimit"@,
            RpcRequest::GetBlockTime => "getBlockTime"@,
            RpcRequest::GetClusterNodes => "getClusterNodes"@,
            RpcRequest::GetEpochInfo => "getEpochInfo"@,
            RpcRequest::GetEpochSchedule => "getEpochSchedule"@,
            RpcRequest::GetFeeCalculatorForBlockhash => "getFeeCalculatorForBlockhash"@,
            RpcRequest::GetFeeRateGovernor => "getFeeRateGovernor"@,
            RpcRequest::GetFees => "getFees"@,
            RpcRequest::GetFirstAvailableBlock => "getFirstAvailableBlock"@,
            RpcRequest::GetGenesisHash => "getGenesisHash"@,
            RpcRequest::GetHealth => "getHealth"@,
            RpcRequest::GetIdentity => "getIdentity"@,
            RpcRequest::GetInflationGovernor => "getInflationGovernor"@,
            RpcRequest::GetInflationRate => "getInflationRate"@,
            RpcRequest::GetInflationReward => "getInflationReward"@,
            RpcRequest::GetLargestAccounts => "getLargestAccounts"@,
            RpcRequest::GetLeaderSchedule => "getLeaderSchedule"@,
            RpcRequest::GetMaxRetransmitSlot => "getMaxRetransmitSlot"@,
            RpcRequest::GetMaxShredInsertSlot => "getMaxShredInsertSlot"@,
            RpcRequest::GetMinimumBalanceForRentExemption => "getMinimumBalanceForRentExemption"@,
            RpcRequest::GetMultipleAccounts => "getMultipleAccounts"@,
            RpcRequest::GetProgramAccounts => "getProgramAccounts"@,
            RpcRequest::GetRecentBlockhash => "getRecentBlockhash"@,
            RpcRequest::GetRecentPerformanceSamples => "getRecentPerformanceSamples"@,
            RpcRequest::GetSnapshotSlot => "getSnapshotSlot"@,
            RpcRequest::GetSignaturesForAddress => "getSignaturesForAddress"@,
            RpcRequest::GetSignatureStatuses => "getSignatureStatuses"@,
            RpcRequest::GetSlot => "getSlot"@,
            RpcRequest::GetSlotLeader => "getSlotLeader"@,
            RpcRequest::GetSlotLeaders => "getSlotLeaders"@,
            RpcRequest::GetStorageTurn => "getStorageTurn"@,
            RpcRequest::GetStorageTurnRate => "getStorageTurnRate"@,
            RpcRequest::GetSlotsPerSegment => "getSlotsPerSegment"@,
            RpcRequest::GetStakeActivation => "getStakeActivation"@,
            RpcRequest::GetStoragePubkeysForSlot => "getStoragePubkeysForSlot"@,
            RpcRequest::GetSupply => "getSupply"@,
            RpcRequest::GetTokenAccountBalance => "getTokenAccountBalance"@,
            RpcRequest::GetTokenAccountsByDelegate => "getTokenAccountsByDelegate"@,
            RpcRequest::GetTokenAccountsByOwner => "getTokenAccountsByOwner"@,
            RpcRequest::GetTokenSupply => "getTokenSupply"@,
            RpcRequest::GetTransaction => "getTransaction"@,
            RpcRequest::GetTransactionCount => "getTransactionCount"@,
            RpcRequest::GetVersion => "getVersion"@,
            RpcRequest::GetVoteAccounts => "getVoteAccounts"@,
            RpcRequest::MinimumLedgerSlot => "minimumLedgerSlot"@,
            RpcRequest::RegisterNode => "registerNode"@,
            RpcRequest::RequestAirdrop => "requestAirdrop"@,
            RpcRequest::SendTransaction => "sendTransaction"@,
            RpcRequest::SimulateTransaction => "simulateTransaction"@,
            RpcRequest::SignVote => "signVote"@,
            RpcRequest::Custom { method } => method@,
        }
    }

    /// The method name as it is written in the `method` field of a request.
    pub fn to_camel_case(self) -> (name: &'static str)
        ensures
            name@ == self.method_name(),
    {
        match self {
            RpcRequest::DeregisterNode => "deregisterNode",
            RpcRequest::GetAccountInfo => "getAccountInfo",
            RpcRequest::GetBalance => "getBalance",
            RpcRequest::GetBlock => "getBlock",
            RpcRequest::GetBlockHeight => "getBlockHeight",
            RpcRequest::GetBlockProduction => "getBlockProduction",
            RpcRequest::GetBlocks => "getBlocks",
            RpcRequest::GetBlocksWithLimit => "getBlocksWithLimit",
            RpcRequest::GetBlockTime => "getBlockTime",
            RpcRequest::GetClusterNodes => "getClusterNodes",
            RpcRequest::GetEpochInfo => "getEpochInfo",
            RpcRequest::GetEpochSchedule => "getEpochSchedule",
            RpcRequest::GetFeeCalculatorForBlockhash => "getFeeCalculatorForBlockhash",
            RpcRequest::GetFeeRateGovernor => "getFeeRateGovernor",
            RpcRequest::GetFees => "getFees",
            RpcRequest::GetFirstAvailableBlock => "getFirstAvailableBlock",
            RpcRequest::GetGenesisHash => "getGenesisHash",
            RpcRequest::GetHealth => "getHealth",
            RpcRequest::GetIdentity => "getIdentity",
            RpcRequest::GetInflationGovernor => "getInflationGovernor",
            RpcRequest::GetInflationRate => "getInflationRate",
            RpcRequest::GetInflationReward => "getInflationReward",
            RpcRequest::GetLargestAccounts => "getLargestAccounts",
            RpcRequest::GetLeaderSchedule => "getLeaderSchedule",
            RpcRequest::GetMaxRetransmitSlot => "getMaxRetransmitSlot",
            RpcRequest::GetMaxShredInsertSlot => "getMaxShredInsertSlot",
            RpcRequest::GetMinimumBalanceForRentExemption => "getMinimumBalanceForRentExemption",
            RpcRequest::GetMultipleAccounts => "getMultipleAccounts",
            RpcRequest::GetProgramAccounts => "getProgramAccounts",
            RpcRequest::GetRecentBlockhash => "getRecentBlockhash",
            RpcRequest::GetRecentPerformanceSamples => "getRecentPerformanceSamples",
            RpcRequest::GetSnapshotSlot => "getSnapshotSlot",
            RpcRequest::GetSignaturesForAddress => "getSignaturesForAddress",
            RpcRequest::GetSignatureStatuses => "getSignatureStatuses",
            RpcRequest::GetSlot => "getSlot",
            RpcRequest::GetSlotLeader => "getSlotLeader",
            RpcRequest::GetSlotLeaders => "getSlotLeaders",
            RpcRequest::GetStorageTurn => "getStorageTurn",
            RpcRequest::GetStorageTurnRate => "getStorageTurnRate",
            RpcRequest::GetSlotsPerSegment => "getSlotsPerSegment",
            RpcRequest::GetStakeActivation => "getStakeActivation",
            RpcRequest::GetStoragePubkeysForSlot => "getStoragePubkeysForSlot",
            RpcRequest::GetSupply => "getSupply",
            RpcRequest::GetTokenAccountBalance => "getTokenAccountBalance",
            RpcRequest::GetTokenAccountsByDelegate => "getTokenAccountsByDelegate",
            RpcRequest::GetTokenAccountsByOwner => "getTokenAccountsByOwner",
            RpcRequest::GetTokenSupply => "getTokenSupply",
            RpcRequest::GetTransaction => "getTransaction",
            RpcRequest::GetTransactionCount => "getTransactionCount",
            RpcRequest::GetVersion => "getVersion",
            RpcRequest::GetVoteAccounts => "getVoteAccounts",
            RpcRequest::MinimumLedgerSlot => "minimumLedgerSlot",
            RpcRequest::RegisterNode => "registerNode",
            RpcRequest::RequestAirdrop => "requestAirdrop",
            RpcRequest::SendTransaction => "sendTransaction",
            RpcRequest::SimulateTransaction => "simulateTransaction",
            RpcRequest::SignVote => "signVote",
            RpcRequest::Custom { method } => method,
        }
    }

    /// The method name as an owned string, for building a request body.
    pub fn to_string(&self) -> (name: String)
        ensures
            name@ == self.method_name(),
    {
        self.to_camel_case().to_owned()
    }
}

} // verus!
