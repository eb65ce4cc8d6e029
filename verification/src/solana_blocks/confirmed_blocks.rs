//! A block as the node writes it, and the answer that carries it.

use crate::json::{lemma_lookup_first, lemma_members_view, Value, ValueView};
use crate::solana_blocks::encoded_transactions::{
    EncodedTransactionWithStatusMeta, EncodedTransactionWithStatusMetaView, RewardView,
};
use crate::solana_blocks::global::{Rewards, Slot, UnixTimestamp};
use crate::wire::{
    encoded_option, field, lemma_field_round_trip, lemma_optional_field_round_trip,
    option_to_value, optional_field, read_field, read_optional_field, Wire,
};
use vstd::prelude::*;

verus! {

/// The node's answer to a request for a block. Members of the answer that are
/// not named here, such as the request's id, are passed over.
#[derive(Debug, PartialEq)]
pub struct BlockResponse {
    pub jsonrpc: String,
    pub result: EncodedConfirmedBlock,
}

/// The mathematical model of a [`BlockResponse`].
pub struct BlockResponseView {
    pub jsonrpc: Seq<char>,
    pub result: EncodedConfirmedBlockView,
}

impl DeepView for BlockResponse {
    type V = BlockResponseView;

    open spec fn deep_view(&self) -> BlockResponseView {
        BlockResponseView {
            jsonrpc: self.jsonrpc.deep_view(),
            result: self.result.deep_view(),
        }
    }
}

impl Clone for BlockResponse {
    fn clone(&self) -> (copy: BlockResponse)
        ensures
            copy.deep_view() == self.deep_view(),
    {
        BlockResponse {
            jsonrpc: self.jsonrpc.clone(),
            result: self.result.clone(),
        }
    }
}

impl Wire for BlockResponse {
    open spec fn encoded(v: BlockResponseView) -> ValueView {
        ValueView::Object(
            seq![
                ("jsonrpc"@, String::encoded(v.jsonrpc)),
                ("result"@, EncodedConfirmedBlock::encoded(v.result)),
            ],
        )
    }

    open spec fn decoded(w: ValueView) -> Option<BlockResponseView> {
        let jsonrpc = field::<String>(w, "jsonrpc"@);
        let result = field::<EncodedConfirmedBlock>(w, "result"@);
        if jsonrpc is Some && result is Some {
            Some(
                BlockResponseView {
                    jsonrpc: jsonrpc->Some_0,
                    result: result->Some_0,
                },
            )
        } else {
            None
        }
    }

    proof fn lemma_round_trip(v: BlockResponseView) {
        let w = Self::encoded(v);
        let members = w->Object_0;
        reveal_strlit("jsonrpc");
        reveal_strlit("result");
        assert("jsonrpc"@.len() == 7);
        assert("result"@.len() == 6);
        lemma_lookup_first(members, "jsonrpc"@, 0);
        lemma_lookup_first(members, "result"@, 1);
        lemma_field_round_trip::<String>(w, "jsonrpc"@, v.jsonrpc);
        lemma_field_round_trip::<EncodedConfirmedBlock>(w, "result"@, v.result);
    }

    fn to_value(&self) -> (w: Value) {
        let mut members: Vec<(String, Value)> = Vec::new();
        members.push(("jsonrpc".to_owned(), self.jsonrpc.to_value()));
        members.push(("result".to_owned(), self.result.to_value()));
        let w = Value::Object(members);
        proof {
            lemma_members_view(members@);
            assert(w.deep_view()->Object_0 =~= Self::encoded(self.deep_view())->Object_0);
        }
        w
    }

    fn from_value(w: &Value) -> (r: Option<BlockResponse>) {
        let jsonrpc = read_field::<String>(w, "jsonrpc")?;
        let result = read_field::<EncodedConfirmedBlock>(w, "result")?;
        Some(BlockResponse { jsonrpc, result })
    }
}

/// A block as the node writes it.
#[derive(Debug, PartialEq)]
pub struct EncodedConfirmedBlock {
    pub previous_blockhash: String,
    pub blockhash: String,
    pub parent_slot: Slot,
    pub transactions: Vec<EncodedTransactionWithStatusMeta>,
    pub rewards: Rewards,
    pub block_time: Option<UnixTimestamp>,
    pub block_height: Option<u64>,
}

/// The mathematical model of a [`EncodedConfirmedBlock`].
pub struct EncodedConfirmedBlockView {
    pub previous_blockhash: Seq<char>,
    pub blockhash: Seq<char>,
    pub parent_slot: u64,
    pub transactions: Seq<EncodedTransactionWithStatusMetaView>,
    pub rewards: Seq<RewardView>,
    pub block_time: Option<i64>,
    pub block_height: Option<u64>,
}

impl DeepView for EncodedConfirmedBlock {
    type V = EncodedConfirmedBlockView;

    open spec fn deep_view(&self) -> EncodedConfirmedBlockView {
        EncodedConfirmedBlockView {
            previous_blockhash: self.previous_blockhash.deep_view(),
            blockhash: self.blockhash.deep_view(),
            parent_slot: self.parent_slot.deep_view(),
            transactions: self.transactions.deep_view(),
            rewards: self.rewards.deep_view(),
            block_time: self.block_time.deep_view(),
            block_height: self.block_height.deep_view(),
        }
    }
}

impl Clone for EncodedConfirmedBlock {
    fn clone(&self) -> (copy: EncodedConfirmedBlock)
        ensures
            copy.deep_view() == self.deep_view(),
    {
        EncodedConfirmedBlock {
            previous_blockhash: self.previous_blockhash.clone(),
            blockhash: self.blockhash.clone(),
            parent_slot: self.parent_slot.clone(),
            transactions: self.transactions.clone(),
            rewards: self.rewards.clone(),
            block_time: self.block_time.clone(),
            block_height: self.block_height.clone(),
        }
    }
}

impl Wire for EncodedConfirmedBlock {
    open spec fn encoded(v: EncodedConfirmedBlockView) -> ValueView {
        ValueView::Object(
            seq![
                ("previousBlockhash"@, String::encoded(v.previous_blockhash)),
                ("blockhash"@, String::encoded(v.blockhash)),
                ("parentSlot"@, Slot::encoded(v.parent_slot)),
                ("transactions"@, <Vec<EncodedTransactionWithStatusMeta>>::encoded(v.transactions)),
                ("rewards"@, Rewards::encoded(v.rewards)),
                ("blockTime"@, encoded_option::<UnixTimestamp>(v.block_time)),
                ("blockHeight"@, encoded_option::<u64>(v.block_height)),
            ],
        )
    }

    open spec fn decoded(w: ValueView) -> Option<EncodedConfirmedBlockView> {
        let previous_blockhash = field::<String>(w, "previousBlockhash"@);
        let blockhash = field::<String>(w, "blockhash"@);
        let parent_slot = field::<Slot>(w, "parentSlot"@);
        let transactions = field::<Vec<EncodedTransactionWithStatusMeta>>(w, "transactions"@);
        let rewards = field::<Rewards>(w, "rewards"@);
        let block_time = optional_field::<UnixTimestamp>(w, "blockTime"@);
        let block_height = optional_field::<u64>(w, "blockHeight"@);
        if previous_blockhash is Some
            && blockhash is Some
            && parent_slot is Some
            && transactions is Some
            && rewards is Some
            && block_time is Some
            && block_height is Some {
            Some(
                EncodedConfirmedBlockView {
                    previous_blockhash: previous_blockhash->Some_0,
                    blockhash: blockhash->Some_0,
                    parent_slot: parent_slot->Some_0,
                    transactions: transactions->Some_0,
                    rewards: rewards->Some_0,
                    block_time: block_time->Some_0,
                    block_height: block_height->Some_0,
                },
            )
        } else {
            None
        }
    }

    proof fn lemma_round_trip(v: EncodedConfirmedBlockView) {
        let w = Self::encoded(v);
        let members = w->Object_0;
        reveal_strlit("previousBlockhash");
        reveal_strlit("blockhash");
        reveal_strlit("parentSlot");
        reveal_strlit("transactions");
        reveal_strlit("rewards");
        reveal_strlit("blockTime");
        reveal_strlit("blockHeight");
        assert("previousBlockhash"@.len() == 17 && "previousBlockhash"@[5] == 'o');
        assert("blockhash"@.len() == 9 && "blockhash"@[5] == 'h');
        assert("parentSlot"@.len() == 10 && "parentSlot"@[5] == 't');
        assert("transactions"@.len() == 12 && "transactions"@[5] == 'a');
        assert("rewards"@.len() == 7 && "rewards"@[5] == 'd');
        assert("blockTime"@.len() == 9 && "blockTime"@[5] == 'T');
        assert("blockHeight"@.len() == 11 && "blockHeight"@[5] == 'H');
        lemma_lookup_first(members, "previousBlockhash"@, 0);
        lemma_lookup_first(members, "blockhash"@, 1);
        lemma_lookup_first(members, "parentSlot"@, 2);
        lemma_lookup_first(members, "transactions"@, 3);
        lemma_lookup_first(members, "rewards"@, 4);
        lemma_lookup_first(members, "blockTime"@, 5);
        lemma_lookup_first(members, "blockHeight"@, 6);
        lemma_field_round_trip::<String>(w, "previousBlockhash"@, v.previous_blockhash);
        lemma_field_round_trip::<String>(w, "blockhash"@, v.blockhash);
        lemma_field_round_trip::<Slot>(w, "parentSlot"@, v.parent_slot);
        lemma_field_round_trip::<Vec<EncodedTransactionWithStatusMeta>>(
            w,
            "transactions"@,
            v.transactions,
        );
        lemma_field_round_trip::<Rewards>(w, "rewards"@, v.rewards);
        lemma_optional_field_round_trip::<UnixTimestamp>(w, "blockTime"@, v.block_time);
        lemma_optional_field_round_trip::<u64>(w, "blockHeight"@, v.block_height);
    }

    fn to_value(&self) -> (w: Value) {
        let mut members: Vec<(String, Value)> = Vec::new();
        members.push(("previousBlockhash".to_owned(), self.previous_blockhash.to_value()));
        members.push(("blockhash".to_owned(), self.blockhash.to_value()));
        members.push(("parentSlot".to_owned(), self.parent_slot.to_value()));
        members.push(("transactions".to_owned(), self.transactions.to_value()));
        members.push(("rewards".to_owned(), self.rewards.to_value()));
        members.push(("blockTime".to_owned(), option_to_value::<UnixTimestamp>(&self.block_time)));
        members.push(("blockHeight".to_owned(), option_to_value::<u64>(&self.block_height)));
        let w = Value::Object(members);
        proof {
            lemma_members_view(members@);
            assert(w.deep_view()->Object_0 =~= Self::encoded(self.deep_view())->Object_0);
        }
        w
    }

    fn from_value(w: &Value) -> (r: Option<EncodedConfirmedBlock>) {
        let previous_blockhash = read_field::<String>(w, "previousBlockhash")?;
        let blockhash = read_field::<String>(w, "blockhash")?;
        let parent_slot = read_field::<Slot>(w, "parentSlot")?;
        let transactions = read_field::<Vec<EncodedTransactionWithStatusMeta>>(w, "transactions")?;
        let rewards = read_field::<Rewards>(w, "rewards")?;
        let block_time = read_optional_field::<UnixTimestamp>(w, "blockTime")?;
        let block_height = read_optional_field::<u64>(w, "blockHeight")?;
        Some(
            EncodedConfirmedBlock {
                previous_blockhash,
                blockhash,
                parent_slot,
                transactions,
                rewards,
                block_time,
                block_height,
            },
        )
    }
}

} // verus!
