use solprobe::RpcRequest;

#[test]
fn method_names_are_camel_case() {
    assert_eq!(RpcRequest::DeregisterNode.to_camel_case(), "deregisterNode");
    assert_eq!(RpcRequest::GetAccountInfo.to_camel_case(), "getAccountInfo");
    assert_eq!(RpcRequest::GetBlock.to_camel_case(), "getBlock");
    assert_eq!(RpcRequest::GetBlockHeight.to_camel_case(), "getBlockHeight");
    assert_eq!(RpcRequest::GetBlocksWithLimit.to_camel_case(), "getBlocksWithLimit");
    assert_eq!(
        RpcRequest::GetFeeCalculatorForBlockhash.to_camel_case(),
        "getFeeCalculatorForBlockhash"
    );
    assert_eq!(
        RpcRequest::GetMinimumBalanceForRentExemption.to_camel_case(),
        "getMinimumBalanceForRentExemption"
    );
    assert_eq!(RpcRequest::GetSlotLeaders.to_camel_case(), "getSlotLeaders");
    assert_eq!(RpcRequest::GetStorageTurnRate.to_camel_case(), "getStorageTurnRate");
    assert_eq!(RpcRequest::GetVoteAccounts.to_camel_case(), "getVoteAccounts");
    assert_eq!(RpcRequest::MinimumLedgerSlot.to_camel_case(), "minimumLedgerSlot");
    assert_eq!(RpcRequest::RegisterNode.to_camel_case(), "registerNode");
    assert_eq!(RpcRequest::RequestAirdrop.to_camel_case(), "requestAirdrop");
    assert_eq!(RpcRequest::SendTransaction.to_camel_case(), "sendTransaction");
    assert_eq!(RpcRequest::SimulateTransaction.to_camel_case(), "simulateTransaction");
    assert_eq!(RpcRequest::SignVote.to_camel_case(), "signVote");
}

#[test]
fn custom_method_is_written_as_given() {
    let request = RpcRequest::Custom { method: "getConfirmedBlock" };
    assert_eq!(request.to_camel_case(), "getConfirmedBlock");
    assert_eq!(request.to_string(), "getConfirmedBlock");
    assert_eq!(RpcRequest::Custom { method: "" }.to_camel_case(), "");
}

#[test]
fn to_string_agrees_with_to_camel_case() {
    for request in [
        RpcRequest::GetBlock,
        RpcRequest::GetBlocks,
        RpcRequest::GetBlockTime,
        RpcRequest::GetSupply,
        RpcRequest::GetTransaction,
        RpcRequest::GetTransactionCount,
        RpcRequest::GetVersion,
    ] {
        assert_eq!(request.to_string(), request.to_camel_case());
    }
}
