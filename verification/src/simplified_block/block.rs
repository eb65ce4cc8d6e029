//! Blocks in the form that is handed on, and how the node's blocks are
//! brought into it.

use crate::json::{lemma_lookup_first, lemma_members_view, Value, ValueView};
use crate::simplified_block::errors::{SolProbeError, SolProbeResult};
use crate::simplified_block::transaction::{Transaction, TransactionView};
use crate::solana_blocks::confirmed_blocks::{EncodedConfirmedBlock, EncodedConfirmedBlockView};
use crate::solana_blocks::encoded_transactions::{
    EncodedTransactionWithStatusMetaView, RewardView,
};
use crate::solana_blocks::global::{Rewards, UnixTimestamp};
use crate::wire::{
    encoded_option, field, lemma_field_round_trip, lemma_optional_field_round_trip,
    option_to_value, optional_field, read_field, read_optional_field, Wire,
};
use vstd::prelude::*;

verus! {

/// A block in the form that is handed on.
#[derive(Debug, PartialEq)]
pub struct ConfirmedBlock {
    pub blockhash: String,
    pub transactions: Vec<Transaction>,
    pub rewards: Rewards,
    pub block_time: Option<UnixTimestamp>,
    pub block_height: Option<u64>,
}

/// The mathematical model of a [`ConfirmedBlock`].
pub struct ConfirmedBlockView {
    pub blockhash: Seq<char>,
    pub transactions: Seq<TransactionView>,
    pub rewards: Seq<RewardView>,
    pub block_time: Option<i64>,
    pub block_height: Option<u64>,
}

impl DeepView for ConfirmedBlock {
    type V = ConfirmedBlockView;

    open spec fn deep_view(&self) -> ConfirmedBlockView {
        ConfirmedBlockView {
            blockhash: self.blockhash.deep_view(),
            transactions: self.transactions.deep_view(),
            rewards: self.rewards.deep_view(),
            block_time: self.block_time.deep_view(),
            block_height: self.block_height.deep_view(),
        }
    }
}

impl Clone for ConfirmedBlock {
    fn clone(&self) -> (copy: ConfirmedBlock)
        ensures
            copy.deep_view() == self.deep_view(),
    {
        ConfirmedBlock {
            blockhash: self.blockhash.clone(),
            transactions: self.transactions.clone(),
            rewards: self.rewards.clone(),
            block_time: self.block_time.clone(),
            block_height: self.block_height.clone(),
        }
    }
}

impl Wire for ConfirmedBlock {
    open spec fn encoded(v: ConfirmedBlockView) -> ValueView {
        ValueView::Object(
            seq![
                ("blockhash"@, String::encoded(v.blockhash)),
                ("transactions"@, <Vec<Transaction>>::encoded(v.transactions)),
                ("rewards"@, Rewards::encoded(v.rewards)),
                ("blockTime"@, encoded_option::<UnixTimestamp>(v.block_time)),
                ("blockHeight"@, encoded_option::<u64>(v.block_height)),
            ],
        )
    }

    open spec fn decoded(w: ValueView) -> Option<ConfirmedBlockView> {
        let blockhash = field::<String>(w, "blockhash"@);
        let transactions = field::<Vec<Transaction>>(w, "transactions"@);
        let rewards = field::<Rewards>(w, "rewards"@);
        let block_time = optional_field::<UnixTimestamp>(w, "blockTime"@);
        let block_height = optional_field::<u64>(w, "blockHeight"@);
        if blockhash is Some
            && transactions is Some
            && rewards is Some
            && block_time is Some
            && block_height is Some {
            Some(
                ConfirmedBlockView {
                    blockhash: blockhash->Some_0,
                    transactions: transactions->Some_0,
                    rewards: rewards->Some_0,
                    block_time: block_time->Some_0,
                    block_height: block_height->Some_0,
                },
            )
        } else {
            None
        }
    }

    proof fn lemma_round_trip(v: ConfirmedBlockView) {
        let w = Self::encoded(v);
        let members = w->Object_0;
        reveal_strlit("blockhash");
        reveal_strlit("transactions");
        reveal_strlit("rewards");
        reveal_strlit("blockTime");
        reveal_strlit("blockHeight");
        assert("blockhash"@.len() == 9 && "blockhash"@[5] == 'h');
        assert("transactions"@.len() == 12 && "transactions"@[5] == 'a');
        assert("rewards"@.len() == 7 && "rewards"@[5] == 'd');
        assert("blockTime"@.len() == 9 && "blockTime"@[5] == 'T');
        assert("blockHeight"@.len() == 11 && "blockHeight"@[5] == 'H');
        lemma_lookup_first(members, "blockhash"@, 0);
        lemma_lookup_first(members, "transactions"@, 1);
        lemma_lookup_first(members, "rewards"@, 2);
        lemma_lookup_first(members, "blockTime"@, 3);
        lemma_lookup_first(members, "blockHeight"@, 4);
        lemma_field_round_trip::<String>(w, "blockhash"@, v.blockhash);
        lemma_field_round_trip::<Vec<Transaction>>(w, "transactions"@, v.transactions);
        lemma_field_round_trip::<Rewards>(w, "rewards"@, v.rewards);
        lemma_optional_field_round_trip::<UnixTimestamp>(w, "blockTime"@, v.block_time);
        lemma_optional_field_round_trip::<u64>(w, "blockHeight"@, v.block_height);
    }

    fn to_value(&self) -> (w: Value) {
        let mut members: Vec<(String, Value)> = Vec::new();
        members.push(("blockhash".to_owned(), self.blockhash.to_value()));
        members.push(("transactions".to_owned(), self.transactions.to_value()));
        members.push(("rewards".to_owned(), self.rewards.to_value()));
        members.push(("blockTime".to_owned(), option_to_value::<UnixTimestamp>(&self.block_time)));
        members.push(("blockHeight".to_owned(), option_to_value::<u64>(&self.block_height)));
        let w = Value::Object(members);
        proof {
            lemma_members_view(members@);
            assert(w.deep_view()->Object_0 =~= Self::encoded(self.deep_view())->Object_0);
        }
        w
    }

    fn from_value(w: &Value) -> (r: Option<ConfirmedBlock>) {
        let blockhash = read_field::<String>(w, "blockhash")?;
        let transactions = read_field::<Vec<Transaction>>(w, "transactions")?;
        let rewards = read_field::<Rewards>(w, "rewards")?;
        let block_time = read_optional_field::<UnixTimestamp>(w, "blockTime")?;
        let block_height = read_optional_field::<u64>(w, "blockHeight")?;
        Some(ConfirmedBlock { blockhash, transactions, rewards, block_time, block_height })
    }
}

/// Whether `k` is the first place at which `transactions` holds a
/// transaction that the normaliser does not translate.
pub open spec fn is_first_unsupported(
    transactions: Seq<EncodedTransactionWithStatusMetaView>,
    k: int,
) -> bool {
    &&& 0 <= k < transactions.len()
    &&& !TransactionView::supported(transactions[k])
    &&& forall|j: int| 0 <= j < k ==> TransactionView::supported(#[trigger] transactions[j])
}

impl ConfirmedBlockView {
    /// What the wire's block is handed on as, or why it is not.
    ///
    /// The block's hash, time, height and rewards stand as they are. Each
    /// transaction is normalised, in its place. Where a transaction is not
    /// supported, the first such decides the error, and there is no block.
    pub open spec fn normalized(wire: EncodedConfirmedBlockView) -> SolProbeResult<
        ConfirmedBlockView,
    > {
        if exists|k: int| is_first_unsupported(wire.transactions, k) {
            let k = choose|k: int| is_first_unsupported(wire.transactions, k);
            Err(TransactionView::normalized(wire.transactions[k])->Err_0)
        } else {
            Ok(
                ConfirmedBlockView {
                    blockhash: wire.blockhash,
                    transactions: Seq::new(
                        wire.transactions.len(),
                        |i: int| TransactionView::normalized(wire.transactions[i])->Ok_0,
                    ),
                    rewards: wire.rewards,
                    block_time: wire.block_time,
                    block_height: wire.block_height,
                },
            )
        }
    }
}

/// Only one place can be the first that holds an unsupported transaction.
pub proof fn lemma_first_unsupported_is_unique(
    transactions: Seq<EncodedTransactionWithStatusMetaView>,
    k: int,
    l: int,
)
    requires
        is_first_unsupported(transactions, k),
        is_first_unsupported(transactions, l),
    ensures
        k == l,
{
    if k < l {
        assert(TransactionView::supported(transactions[k]));
    }
    if l < k {
        assert(TransactionView::supported(transactions[l]));
    }
}

/// Where some transaction is unsupported, some place is the first that
/// holds one.
pub proof fn lemma_first_unsupported_exists(
    transactions: Seq<EncodedTransactionWithStatusMetaView>,
    k: int,
) -> (first: int)
    requires
        0 <= k < transactions.len(),
        !TransactionView::supported(transactions[k]),
    ensures
        is_first_unsupported(transactions, first),
        first <= k,
    decreases k,
{
    if forall|j: int| 0 <= j < k ==> TransactionView::supported(#[trigger] transactions[j]) {
        k
    } else {
        let j = choose|j: int|
            0 <= j < k && !TransactionView::supported(#[trigger] transactions[j]);
        lemma_first_unsupported_exists(transactions, j)
    }
}

/// A block that is normalised has as many transactions as the wire's block,
/// and the transaction at each place is the wire's transaction at that
/// place, normalised: none is dropped, added or moved.
pub proof fn lemma_order_preserved(wire: EncodedConfirmedBlockView, i: int)
    requires
        ConfirmedBlockView::normalized(wire) is Ok,
        0 <= i < wire.transactions.len(),
    ensures
        ConfirmedBlockView::normalized(wire)->Ok_0.transactions.len() == wire.transactions.len(),
        TransactionView::normalized(wire.transactions[i]) == Ok::<TransactionView, SolProbeError>(
            ConfirmedBlockView::normalized(wire)->Ok_0.transactions[i],
        ),
{
    if !TransactionView::supported(wire.transactions[i]) {
        let first = lemma_first_unsupported_exists(wire.transactions, i);
    }
}

/// A block of which every transaction is written out as an object and has a
/// raw message is normalised, and its hash, time, height and rewards are the
/// wire's.
pub proof fn lemma_supported_block_is_normalized(wire: EncodedConfirmedBlockView)
    requires
        forall|i: int|
            0 <= i < wire.transactions.len() ==> TransactionView::supported(
                #[trigger] wire.transactions[i],
            ),
    ensures
        ConfirmedBlockView::normalized(wire) is Ok,
        ConfirmedBlockView::normalized(wire)->Ok_0.blockhash == wire.blockhash,
        ConfirmedBlockView::normalized(wire)->Ok_0.rewards == wire.rewards,
        ConfirmedBlockView::normalized(wire)->Ok_0.block_time == wire.block_time,
        ConfirmedBlockView::normalized(wire)->Ok_0.block_height == wire.block_height,
{
}

/// A block that holds an unsupported transaction, at whatever place, is not
/// normalised. A transaction that is not written out as an object is refused
/// for its encoding, one that is but has no raw message for its message;
/// where no transaction before `k` is unsupported, the block's error is that
/// of the transaction at `k`.
pub proof fn lemma_unsupported_transaction_fails_block(wire: EncodedConfirmedBlockView, k: int)
    requires
        0 <= k < wire.transactions.len(),
        !TransactionView::supported(wire.transactions[k]),
    ensures
        ConfirmedBlockView::normalized(wire) is Err,
        is_first_unsupported(wire.transactions, k) ==> ConfirmedBlockView::normalized(wire)
            == Err::<ConfirmedBlockView, SolProbeError>(
            TransactionView::normalized(wire.transactions[k])->Err_0,
        ),
        !(wire.transactions[k].transaction is Json) ==> TransactionView::normalized(
            wire.transactions[k],
        ) == Err::<TransactionView, SolProbeError>(SolProbeError::UnsupportedEncoding),
        wire.transactions[k].transaction is Json ==> TransactionView::normalized(
            wire.transactions[k],
        ) == Err::<TransactionView, SolProbeError>(SolProbeError::UnsupportedMessageType),
{
    let first = lemma_first_unsupported_exists(wire.transactions, k);
    let chosen = choose|j: int| is_first_unsupported(wire.transactions, j);
    if is_first_unsupported(wire.transactions, k) {
        lemma_first_unsupported_is_unique(wire.transactions, k, chosen);
    }
}

impl ConfirmedBlock {
    /// A block with an empty hash, no transactions and no rewards.
    pub fn new() -> (block: ConfirmedBlock)
        ensures
            block.deep_view() == (ConfirmedBlockView {
                blockhash: Seq::empty(),
                transactions: Seq::empty(),
                rewards: Seq::empty(),
                block_time: None,
                block_height: None,
            }),
    {
        let block = Self {
            blockhash: String::new(),
            transactions: Vec::new(),
            rewards: Vec::new(),
            block_time: None,
            block_height: None,
        };
        assert(block.transactions.deep_view() =~= Seq::empty());
        assert(block.rewards.deep_view() =~= Seq::empty());
        block
    }

    /// Fills `self` from the wire's block. Where a transaction of the block is
    /// not supported, `self` is left as it was.
    pub fn decode(&mut self, block: &EncodedConfirmedBlock) -> (r: SolProbeResult<&mut Self>)
        ensures
            match ConfirmedBlockView::normalized(block.deep_view()) {
                Ok(decoded) => r is Ok && (*r->Ok_0).deep_view() == decoded && *final(self)
                    == *final(r->Ok_0),
                Err(error) => r is Err && r->Err_0 == error && *final(self) == *old(self),
            },
    {
        let ghost wire = block.deep_view();
        let mut transactions: Vec<Transaction> = Vec::new();
        let mut i: usize = 0;
        while i < block.transactions.len()
            invariant
                wire == block.deep_view(),
                i <= block.transactions@.len(),
                transactions@.len() == i,
                forall|j: int|
                    0 <= j < i ==> TransactionView::normalized(#[trigger] wire.transactions[j])
                        == Ok::<TransactionView, SolProbeError>(transactions@[j].deep_view()),
            decreases block.transactions@.len() - i,
        {
            let mut transaction = Transaction::new();
            match transaction.decode_tx(&block.transactions[i]) {
                Ok(_) => {},
                Err(error) => {
                    proof {
                        assert(wire.transactions[i as int]
                            == block.transactions@[i as int].deep_view());
                        assert(is_first_unsupported(wire.transactions, i as int));
                        let chosen = choose|k: int| is_first_unsupported(wire.transactions, k);
                        lemma_first_unsupported_is_unique(wire.transactions, i as int, chosen);
                    }
                    return Err(error);
                },
            }
            transactions.push(transaction);
            i += 1;
        }

        proof {
            assert forall|k: int| !is_first_unsupported(wire.transactions, k) by {
                if 0 <= k < wire.transactions.len() {
                    assert(TransactionView::normalized(wire.transactions[k]) is Ok);
                }
            }
            assert(transactions.deep_view() =~= ConfirmedBlockView::normalized(
                wire,
            )->Ok_0.transactions);
        }
        self.blockhash = block.blockhash.clone();
        self.block_height = block.block_height;
        self.block_time = block.block_time;
        self.rewards = block.rewards.clone();
        self.transactions = transactions;
        proof {
            assert(self.rewards.deep_view() =~= block.rewards.deep_view());
        }

        Ok(self)
    }
}

} // verus!
