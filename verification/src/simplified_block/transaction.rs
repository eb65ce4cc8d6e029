//! Transactions in the form that is handed on, and how the node's
//! transactions are brought into it.

use crate::json::{lemma_lookup_first, lemma_members_view, Number, Value, ValueView};
use crate::simplified_block::errors::{SolProbeError, SolProbeResult};
use crate::solana_blocks::encoded_transactions::{
    EncodedTransaction, EncodedTransactionView, EncodedTransactionWithStatusMeta,
    EncodedTransactionWithStatusMetaView, RewardView, UiTokenAmount, UiTokenAmountView,
    UiTransaction, UiTransactionStatusMeta, UiTransactionStatusMetaView,
    UiTransactionTokenBalance, UiTransactionTokenBalanceView,
};
use crate::solana_blocks::errors::{TransactionError, TransactionErrorView};
use crate::solana_blocks::global::{Rewards, StringAmount, StringDecimals};
use crate::solana_blocks::messages::{
    UiMessage, UiMessageView, UiRawMessage, UiRawMessageView,
};
use crate::wire::{
    encoded_option, field, lemma_field_round_trip, lemma_optional_field_round_trip,
    option_to_value, optional_field, read_field, read_optional_field, Wire,
};
use vstd::prelude::*;
use vstd::std_specs::convert::FromSpecImpl;

pub use crate::solana_blocks::encoded_transactions::{Reward, RewardType};

verus! {

/// A transaction in the form that is handed on: its signatures, the head of
/// its message, and what the ledger recorded of its execution.
#[derive(Debug, PartialEq)]
pub struct Transaction {
    pub signatures: Vec<String>,
    pub message: Message,
    pub metadata: Option<Metadata>,
}

/// The mathematical model of a [`Transaction`].
pub struct TransactionView {
    pub signatures: Seq<Seq<char>>,
    pub message: MessageView,
    pub metadata: Option<MetadataView>,
}

impl DeepView for Transaction {
    type V = TransactionView;

    open spec fn deep_view(&self) -> TransactionView {
        TransactionView {
            signatures: self.signatures.deep_view(),
            message: self.message.deep_view(),
            metadata: self.metadata.deep_view(),
        }
    }
}

impl Clone for Transaction {
    fn clone(&self) -> (copy: Transaction)
        ensures
            copy.deep_view() == self.deep_view(),
    {
        Transaction {
            signatures: self.signatures.clone(),
            message: self.message.clone(),
            metadata: self.metadata.clone(),
        }
    }
}

impl Wire for Transaction {
    open spec fn encoded(v: TransactionView) -> ValueView {
        ValueView::Object(
            seq![
                ("signatures"@, <Vec<String>>::encoded(v.signatures)),
                ("message"@, Message::encoded(v.message)),
                ("metadata"@, encoded_option::<Metadata>(v.metadata)),
            ],
        )
    }

    open spec fn decoded(w: ValueView) -> Option<TransactionView> {
        let signatures = field::<Vec<String>>(w, "signatures"@);
        let message = field::<Message>(w, "message"@);
        let metadata = optional_field::<Metadata>(w, "metadata"@);
        if signatures is Some && message is Some && metadata is Some {
            Some(
                TransactionView {
                    signatures: signatures->Some_0,
                    message: message->Some_0,
                    metadata: metadata->Some_0,
                },
            )
        } else {
            None
        }
    }

    proof fn lemma_round_trip(v: TransactionView) {
        let w = Self::encoded(v);
        let members = w->Object_0;
        reveal_strlit("signatures");
        reveal_strlit("message");
        reveal_strlit("metadata");
        assert("signatures"@.len() == 10);
        assert("message"@.len() == 7);
        assert("metadata"@.len() == 8);
        lemma_lookup_first(members, "signatures"@, 0);
        lemma_lookup_first(members, "message"@, 1);
        lemma_lookup_first(members, "metadata"@, 2);
        lemma_field_round_trip::<Vec<String>>(w, "signatures"@, v.signatures);
        lemma_field_round_trip::<Message>(w, "message"@, v.message);
        lemma_optional_field_round_trip::<Metadata>(w, "metadata"@, v.metadata);
    }

    fn to_value(&self) -> (w: Value) {
        let mut members: Vec<(String, Value)> = Vec::new();
        members.push(("signatures".to_owned(), self.signatures.to_value()));
        members.push(("message".to_owned(), self.message.to_value()));
        members.push(("metadata".to_owned(), option_to_value::<Metadata>(&self.metadata)));
        let w = Value::Object(members);
        proof {
            lemma_members_view(members@);
            assert(w.deep_view()->Object_0 =~= Self::encoded(self.deep_view())->Object_0);
        }
        w
    }

    fn from_value(w: &Value) -> (r: Option<Transaction>) {
        let signatures = read_field::<Vec<String>>(w, "signatures")?;
        let message = read_field::<Message>(w, "message")?;
        let metadata = read_optional_field::<Metadata>(w, "metadata")?;
        Some(Transaction { signatures, message, metadata })
    }
}

/// What the ledger recorded of a transaction's execution. Every list is
/// there; one that the node left out is empty.
#[derive(Debug, PartialEq)]
pub struct Metadata {
    /// The ledger's error, where the transaction failed.
    pub err: Option<TransactionError>,
    pub fee: u64,
    pub pre_balances: Vec<u64>,
    pub post_balances: Vec<u64>,
    pub log_messages: Vec<String>,
    pub pre_token_balances: Vec<TokenBalance>,
    pub post_token_balances: Vec<TokenBalance>,
    pub rewards: Rewards,
}

/// The mathematical model of a [`Metadata`].
pub struct MetadataView {
    pub err: Option<TransactionErrorView>,
    pub fee: u64,
    pub pre_balances: Seq<u64>,
    pub post_balances: Seq<u64>,
    pub log_messages: Seq<Seq<char>>,
    pub pre_token_balances: Seq<TokenBalanceView>,
    pub post_token_balances: Seq<TokenBalanceView>,
    pub rewards: Seq<RewardView>,
}

impl DeepView for Metadata {
    type V = MetadataView;

    open spec fn deep_view(&self) -> MetadataView {
        MetadataView {
            err: self.err.deep_view(),
            fee: self.fee.deep_view(),
            pre_balances: self.pre_balances.deep_view(),
            post_balances: self.post_balances.deep_view(),
            log_messages: self.log_messages.deep_view(),
            pre_token_balances: self.pre_token_balances.deep_view(),
            post_token_balances: self.post_token_balances.deep_view(),
            rewards: self.rewards.deep_view(),
        }
    }
}

impl Clone for Metadata {
    fn clone(&self) -> (copy: Metadata)
        ensures
            copy.deep_view() == self.deep_view(),
    {
        Metadata {
            err: self.err.clone(),
            fee: self.fee.clone(),
            pre_balances: self.pre_balances.clone(),
            post_balances: self.post_balances.clone(),
            log_messages: self.log_messages.clone(),
            pre_token_balances: self.pre_token_balances.clone(),
            post_token_balances: self.post_token_balances.clone(),
            rewards: self.rewards.clone(),
        }
    }
}

impl Wire for Metadata {
    open spec fn encoded(v: MetadataView) -> ValueView {
        ValueView::Object(
            seq![
                ("err"@, encoded_option::<TransactionError>(v.err)),
                ("fee"@, u64::encoded(v.fee)),
                ("preBalances"@, <Vec<u64>>::encoded(v.pre_balances)),
                ("postBalances"@, <Vec<u64>>::encoded(v.post_balances)),
                ("logMessages"@, <Vec<String>>::encoded(v.log_messages)),
                ("preTokenBalances"@, <Vec<TokenBalance>>::encoded(v.pre_token_balances)),
                ("postTokenBalances"@, <Vec<TokenBalance>>::encoded(v.post_token_balances)),
                ("rewards"@, Rewards::encoded(v.rewards)),
            ],
        )
    }

    open spec fn decoded(w: ValueView) -> Option<MetadataView> {
        let err = optional_field::<TransactionError>(w, "err"@);
        let fee = field::<u64>(w, "fee"@);
        let pre_balances = field::<Vec<u64>>(w, "preBalances"@);
        let post_balances = field::<Vec<u64>>(w, "postBalances"@);
        let log_messages = field::<Vec<String>>(w, "logMessages"@);
        let pre_token_balances = field::<Vec<TokenBalance>>(w, "preTokenBalances"@);
        let post_token_balances = field::<Vec<TokenBalance>>(w, "postTokenBalances"@);
        let rewards = field::<Rewards>(w, "rewards"@);
        if err is Some
            && fee is Some
            && pre_balances is Some
            && post_balances is Some
            && log_messages is Some
            && pre_token_balances is Some
            && post_token_balances is Some
            && rewards is Some {
            Some(
                MetadataView {
                    err: err->Some_0,
                    fee: fee->Some_0,
                    pre_balances: pre_balances->Some_0,
                    post_balances: post_balances->Some_0,
                    log_messages: log_messages->Some_0,
                    pre_token_balances: pre_token_balances->Some_0,
                    post_token_balances: post_token_balances->Some_0,
                    rewards: rewards->Some_0,
                },
            )
        } else {
            None
        }
    }

    proof fn lemma_round_trip(v: MetadataView) {
        let w = Self::encoded(v);
        let members = w->Object_0;
        reveal_strlit("err");
        reveal_strlit("fee");
        reveal_strlit("preBalances");
        reveal_strlit("postBalances");
        reveal_strlit("logMessages");
        reveal_strlit("preTokenBalances");
        reveal_strlit("postTokenBalances");
        reveal_strlit("rewards");
        assert("err"@.len() == 3 && "err"@[0] == 'e');
        assert("fee"@.len() == 3 && "fee"@[0] == 'f');
        assert("preBalances"@.len() == 11 && "preBalances"@[0] == 'p');
        assert("postBalances"@.len() == 12 && "postBalances"@[0] == 'p');
        assert("logMessages"@.len() == 11 && "logMessages"@[0] == 'l');
        assert("preTokenBalances"@.len() == 16 && "preTokenBalances"@[0] == 'p');
        assert("postTokenBalances"@.len() == 17 && "postTokenBalances"@[0] == 'p');
        assert("rewards"@.len() == 7 && "rewards"@[0] == 'r');
        lemma_lookup_first(members, "err"@, 0);
        lemma_lookup_first(members, "fee"@, 1);
        lemma_lookup_first(members, "preBalances"@, 2);
        lemma_lookup_first(members, "postBalances"@, 3);
        lemma_lookup_first(members, "logMessages"@, 4);
        lemma_lookup_first(members, "preTokenBalances"@, 5);
        lemma_lookup_first(members, "postTokenBalances"@, 6);
        lemma_lookup_first(members, "rewards"@, 7);
        lemma_optional_field_round_trip::<TransactionError>(w, "err"@, v.err);
        lemma_field_round_trip::<u64>(w, "fee"@, v.fee);
        lemma_field_round_trip::<Vec<u64>>(w, "preBalances"@, v.pre_balances);
        lemma_field_round_trip::<Vec<u64>>(w, "postBalances"@, v.post_balances);
        lemma_field_round_trip::<Vec<String>>(w, "logMessages"@, v.log_messages);
        lemma_field_round_trip::<Vec<TokenBalance>>(w, "preTokenBalances"@, v.pre_token_balances);
        lemma_field_round_trip::<Vec<TokenBalance>>(w, "postTokenBalances"@, v.post_token_balances);
        lemma_field_round_trip::<Rewards>(w, "rewards"@, v.rewards);
    }

    fn to_value(&self) -> (w: Value) {
        let mut members: Vec<(String, Value)> = Vec::new();
        members.push(("err".to_owned(), option_to_value::<TransactionError>(&self.err)));
        members.push(("fee".to_owned(), self.fee.to_value()));
        members.push(("preBalances".to_owned(), self.pre_balances.to_value()));
        members.push(("postBalances".to_owned(), self.post_balances.to_value()));
        members.push(("logMessages".to_owned(), self.log_messages.to_value()));
        members.push(("preTokenBalances".to_owned(), self.pre_token_balances.to_value()));
        members.push(("postTokenBalances".to_owned(), self.post_token_balances.to_value()));
        members.push(("rewards".to_owned(), self.rewards.to_value()));
        let w = Value::Object(members);
        proof {
            lemma_members_view(members@);
            assert(w.deep_view()->Object_0 =~= Self::encoded(self.deep_view())->Object_0);
        }
        w
    }

    fn from_value(w: &Value) -> (r: Option<Metadata>) {
        let err = read_optional_field::<TransactionError>(w, "err")?;
        let fee = read_field::<u64>(w, "fee")?;
        let pre_balances = read_field::<Vec<u64>>(w, "preBalances")?;
        let post_balances = read_field::<Vec<u64>>(w, "postBalances")?;
        let log_messages = read_field::<Vec<String>>(w, "logMessages")?;
        let pre_token_balances = read_field::<Vec<TokenBalance>>(w, "preTokenBalances")?;
        let post_token_balances = read_field::<Vec<TokenBalance>>(w, "postTokenBalances")?;
        let rewards = read_field::<Rewards>(w, "rewards")?;
        Some(
            Metadata {
                err,
                fee,
                pre_balances,
                post_balances,
                log_messages,
                pre_token_balances,
                post_token_balances,
                rewards,
            },
        )
    }
}

/// The balance of a token account of a transaction.
#[derive(Debug, PartialEq)]
pub struct TokenBalance {
    pub account_index: u8,
    pub mint: String,
    pub token_amount: TokenAmount,
}

/// The mathematical model of a [`TokenBalance`].
pub struct TokenBalanceView {
    pub account_index: u8,
    pub mint: Seq<char>,
    pub token_amount: TokenAmountView,
}

impl DeepView for TokenBalance {
    type V = TokenBalanceView;

    open spec fn deep_view(&self) -> TokenBalanceView {
        TokenBalanceView {
            account_index: self.account_index.deep_view(),
            mint: self.mint.deep_view(),
            token_amount: self.token_amount.deep_view(),
        }
    }
}

impl Clone for TokenBalance {
    fn clone(&self) -> (copy: TokenBalance)
        ensures
            copy.deep_view() == self.deep_view(),
    {
        TokenBalance {
            account_index: self.account_index.clone(),
            mint: self.mint.clone(),
            token_amount: self.token_amount.clone(),
        }
    }
}

impl Wire for TokenBalance {
    open spec fn encoded(v: TokenBalanceView) -> ValueView {
        ValueView::Object(
            seq![
                ("accountIndex"@, u8::encoded(v.account_index)),
                ("mint"@, String::encoded(v.mint)),
                ("tokenAmount"@, TokenAmount::encoded(v.token_amount)),
            ],
        )
    }

    open spec fn decoded(w: ValueView) -> Option<TokenBalanceView> {
        let account_index = field::<u8>(w, "accountIndex"@);
        let mint = field::<String>(w, "mint"@);
        let token_amount = field::<TokenAmount>(w, "tokenAmount"@);
        if account_index is Some && mint is Some && token_amount is Some {
            Some(
                TokenBalanceView {
                    account_index: account_index->Some_0,
                    mint: mint->Some_0,
                    token_amount: token_amount->Some_0,
                },
            )
        } else {
            None
        }
    }

    proof fn lemma_round_trip(v: TokenBalanceView) {
        let w = Self::encoded(v);
        let members = w->Object_0;
        reveal_strlit("accountIndex");
        reveal_strlit("mint");
        reveal_strlit("tokenAmount");
        assert("accountIndex"@.len() == 12);
        assert("mint"@.len() == 4);
        assert("tokenAmount"@.len() == 11);
        lemma_lookup_first(members, "accountIndex"@, 0);
        lemma_lookup_first(members, "mint"@, 1);
        lemma_lookup_first(members, "tokenAmount"@, 2);
        lemma_field_round_trip::<u8>(w, "accountIndex"@, v.account_index);
        lemma_field_round_trip::<String>(w, "mint"@, v.mint);
        lemma_field_round_trip::<TokenAmount>(w, "tokenAmount"@, v.token_amount);
    }

    fn to_value(&self) -> (w: Value) {
        let mut members: Vec<(String, Value)> = Vec::new();
        members.push(("accountIndex".to_owned(), self.account_index.to_value()));
        members.push(("mint".to_owned(), self.mint.to_value()));
        members.push(("tokenAmount".to_owned(), self.token_amount.to_value()));
        let w = Value::Object(members);
        proof {
            lemma_members_view(members@);
            assert(w.deep_view()->Object_0 =~= Self::encoded(self.deep_view())->Object_0);
        }
        w
    }

    fn from_value(w: &Value) -> (r: Option<TokenBalance>) {
        let account_index = read_field::<u8>(w, "accountIndex")?;
        let mint = read_field::<String>(w, "mint")?;
        let token_amount = read_field::<TokenAmount>(w, "tokenAmount")?;
        Some(TokenBalance { account_index, mint, token_amount })
    }
}

/// An amount of a token.
#[derive(Debug, PartialEq)]
pub struct TokenAmount {
    /// The amount with the decimals applied, as a number.
    pub amount: Option<Number>,
    pub decimals: u8,
    /// The raw amount, in decimal digits.
    pub string_amount: StringAmount,
    /// The amount with the decimals applied, as text.
    pub string_decimals: StringDecimals,
}

/// The mathematical model of a [`TokenAmount`].
pub struct TokenAmountView {
    pub amount: Option<Number>,
    pub decimals: u8,
    pub string_amount: Seq<char>,
    pub string_decimals: Seq<char>,
}

impl DeepView for TokenAmount {
    type V = TokenAmountView;

    open spec fn deep_view(&self) -> TokenAmountView {
        TokenAmountView {
            amount: self.amount.deep_view(),
            decimals: self.decimals.deep_view(),
            string_amount: self.string_amount.deep_view(),
            string_decimals: self.string_decimals.deep_view(),
        }
    }
}

impl Clone for TokenAmount {
    fn clone(&self) -> (copy: TokenAmount)
        ensures
            copy.deep_view() == self.deep_view(),
    {
        TokenAmount {
            amount: self.amount.clone(),
            decimals: self.decimals.clone(),
            string_amount: self.string_amount.clone(),
            string_decimals: self.string_decimals.clone(),
        }
    }
}

impl Wire for TokenAmount {
    open spec fn encoded(v: TokenAmountView) -> ValueView {
        ValueView::Object(
            seq![
                ("amount"@, encoded_option::<Number>(v.amount)),
                ("decimals"@, u8::encoded(v.decimals)),
                ("stringAmount"@, StringAmount::encoded(v.string_amount)),
                ("stringDecimals"@, StringDecimals::encoded(v.string_decimals)),
            ],
        )
    }

    open spec fn decoded(w: ValueView) -> Option<TokenAmountView> {
        let amount = optional_field::<Number>(w, "amount"@);
        let decimals = field::<u8>(w, "decimals"@);
        let string_amount = field::<StringAmount>(w, "stringAmount"@);
        let string_decimals = field::<StringDecimals>(w, "stringDecimals"@);
        if amount is Some && decimals is Some && string_amount is Some && string_decimals is Some {
            Some(
                TokenAmountView {
                    amount: amount->Some_0,
                    decimals: decimals->Some_0,
                    string_amount: string_amount->Some_0,
                    string_decimals: string_decimals->Some_0,
                },
            )
        } else {
            None
        }
    }

    proof fn lemma_round_trip(v: TokenAmountView) {
        let w = Self::encoded(v);
        let members = w->Object_0;
        reveal_strlit("amount");
        reveal_strlit("decimals");
        reveal_strlit("stringAmount");
        reveal_strlit("stringDecimals");
        assert("amount"@.len() == 6);
        assert("decimals"@.len() == 8);
        assert("stringAmount"@.len() == 12);
        assert("stringDecimals"@.len() == 14);
        lemma_lookup_first(members, "amount"@, 0);
        lemma_lookup_first(members, "decimals"@, 1);
        lemma_lookup_first(members, "stringAmount"@, 2);
        lemma_lookup_first(members, "stringDecimals"@, 3);
        lemma_optional_field_round_trip::<Number>(w, "amount"@, v.amount);
        lemma_field_round_trip::<u8>(w, "decimals"@, v.decimals);
        lemma_field_round_trip::<StringAmount>(w, "stringAmount"@, v.string_amount);
        lemma_field_round_trip::<StringDecimals>(w, "stringDecimals"@, v.string_decimals);
    }

    fn to_value(&self) -> (w: Value) {
        let mut members: Vec<(String, Value)> = Vec::new();
        members.push(("amount".to_owned(), option_to_value::<Number>(&self.amount)));
        members.push(("decimals".to_owned(), self.decimals.to_value()));
        members.push(("stringAmount".to_owned(), self.string_amount.to_value()));
        members.push(("stringDecimals".to_owned(), self.string_decimals.to_value()));
        let w = Value::Object(members);
        proof {
            lemma_members_view(members@);
            assert(w.deep_view()->Object_0 =~= Self::encoded(self.deep_view())->Object_0);
        }
        w
    }

    fn from_value(w: &Value) -> (r: Option<TokenAmount>) {
        let amount = read_optional_field::<Number>(w, "amount")?;
        let decimals = read_field::<u8>(w, "decimals")?;
        let string_amount = read_field::<StringAmount>(w, "stringAmount")?;
        let string_decimals = read_field::<StringDecimals>(w, "stringDecimals")?;
        Some(TokenAmount { amount, decimals, string_amount, string_decimals })
    }
}

/// The head of a raw message: the account keys, and the three counts that say
/// how they divide into signers and read-only accounts.
#[derive(Debug, PartialEq)]
pub struct Message {
    pub account_keys: Vec<String>,
    /// How many signatures the message needs; they belong to the first account
    /// keys.
    pub num_required_signatures: u8,
    /// How many of the signing accounts, counted from the last, are read-only.
    pub num_readonly_signed_accounts: u8,
    /// How many of the other accounts, counted from the last, are read-only.
    pub num_readonly_unsigned_accounts: u8,
}

/// The mathematical model of a [`Message`].
pub struct MessageView {
    pub account_keys: Seq<Seq<char>>,
    pub num_required_signatures: u8,
    pub num_readonly_signed_accounts: u8,
    pub num_readonly_unsigned_accounts: u8,
}

impl DeepView for Message {
    type V = MessageView;

    open spec fn deep_view(&self) -> MessageView {
        MessageView {
            account_keys: self.account_keys.deep_view(),
            num_required_signatures: self.num_required_signatures.deep_view(),
            num_readonly_signed_accounts: self.num_readonly_signed_accounts.deep_view(),
            num_readonly_unsigned_accounts: self.num_readonly_unsigned_accounts.deep_view(),
        }
    }
}

impl Clone for Message {
    fn clone(&self) -> (copy: Message)
        ensures
            copy.deep_view() == self.deep_view(),
    {
        Message {
            account_keys: self.account_keys.clone(),
            num_required_signatures: self.num_required_signatures.clone(),
            num_readonly_signed_accounts: self.num_readonly_signed_accounts.clone(),
            num_readonly_unsigned_accounts: self.num_readonly_unsigned_accounts.clone(),
        }
    }
}

impl Wire for Message {
    open spec fn encoded(v: MessageView) -> ValueView {
        ValueView::Object(
            seq![
                ("accountKeys"@, <Vec<String>>::encoded(v.account_keys)),
                ("numRequiredSignatures"@, u8::encoded(v.num_required_signatures)),
                ("numReadonlySignedAccounts"@, u8::encoded(v.num_readonly_signed_accounts)),
                ("numReadonlyUnsignedAccounts"@, u8::encoded(v.num_readonly_unsigned_accounts)),
            ],
        )
    }

    open spec fn decoded(w: ValueView) -> Option<MessageView> {
        let account_keys = field::<Vec<String>>(w, "accountKeys"@);
        let num_required_signatures = field::<u8>(w, "numRequiredSignatures"@);
        let num_readonly_signed_accounts = field::<u8>(w, "numReadonlySignedAccounts"@);
        let num_readonly_unsigned_accounts = field::<u8>(w, "numReadonlyUnsignedAccounts"@);
        if account_keys is Some
            && num_required_signatures is Some
            && num_readonly_signed_accounts is Some
            && num_readonly_unsigned_accounts is Some {
            Some(
                MessageView {
                    account_keys: account_keys->Some_0,
                    num_required_signatures: num_required_signatures->Some_0,
                    num_readonly_signed_accounts: num_readonly_signed_accounts->Some_0,
                    num_readonly_unsigned_accounts: num_readonly_unsigned_accounts->Some_0,
                },
            )
        } else {
            None
        }
    }

    proof fn lemma_round_trip(v: MessageView) {
        let w = Self::encoded(v);
        let members = w->Object_0;
        reveal_strlit("accountKeys");
        reveal_strlit("numRequiredSignatures");
        reveal_strlit("numReadonlySignedAccounts");
        reveal_strlit("numReadonlyUnsignedAccounts");
        assert("accountKeys"@.len() == 11);
        assert("numRequiredSignatures"@.len() == 21);
        assert("numReadonlySignedAccounts"@.len() == 25);
        assert("numReadonlyUnsignedAccounts"@.len() == 27);
        lemma_lookup_first(members, "accountKeys"@, 0);
        lemma_lookup_first(members, "numRequiredSignatures"@, 1);
        lemma_lookup_first(members, "numReadonlySignedAccounts"@, 2);
        lemma_lookup_first(members, "numReadonlyUnsignedAccounts"@, 3);
        lemma_field_round_trip::<Vec<String>>(w, "accountKeys"@, v.account_keys);
        lemma_field_round_trip::<u8>(w, "numRequiredSignatures"@, v.num_required_signatures);
        lemma_field_round_trip::<u8>(
            w,
            "numReadonlySignedAccounts"@,
            v.num_readonly_signed_accounts,
        );
        lemma_field_round_trip::<u8>(
            w,
            "numReadonlyUnsignedAccounts"@,
            v.num_readonly_unsigned_accounts,
        );
    }

    fn to_value(&self) -> (w: Value) {
        let mut members: Vec<(String, Value)> = Vec::new();
        members.push(("accountKeys".to_owned(), self.account_keys.to_value()));
        members.push(("numRequiredSignatures".to_owned(), self.num_required_signatures.to_value()));
        members.push(
            ("numReadonlySignedAccounts".to_owned(), self.num_readonly_signed_accounts.to_value()),
        );
        members.push(
            (
                "numReadonlyUnsignedAccounts".to_owned(),
                self.num_readonly_unsigned_accounts.to_value(),
            ),
        );
        let w = Value::Object(members);
        proof {
            lemma_members_view(members@);
            assert(w.deep_view()->Object_0 =~= Self::encoded(self.deep_view())->Object_0);
        }
        w
    }

    fn from_value(w: &Value) -> (r: Option<Message>) {
        let account_keys = read_field::<Vec<String>>(w, "accountKeys")?;
        let num_required_signatures = read_field::<u8>(w, "numRequiredSignatures")?;
        let num_readonly_signed_accounts = read_field::<u8>(w, "numReadonlySignedAccounts")?;
        let num_readonly_unsigned_accounts = read_field::<u8>(w, "numReadonlyUnsignedAccounts")?;
        Some(
            Message {
                account_keys,
                num_required_signatures,
                num_readonly_signed_accounts,
                num_readonly_unsigned_accounts,
            },
        )
    }
}

impl TokenAmountView {
    /// The amount that the wire's amount is handed on as.
    pub open spec fn normalized(wire: UiTokenAmountView) -> TokenAmountView {
        TokenAmountView {
            amount: wire.ui_amount,
            decimals: wire.decimals,
            string_amount: wire.amount,
            string_decimals: wire.ui_amount_string,
        }
    }
}

impl TokenBalanceView {
    /// The balance that the wire's balance is handed on as.
    pub open spec fn normalized(wire: UiTransactionTokenBalanceView) -> TokenBalanceView {
        TokenBalanceView {
            account_index: wire.account_index,
            mint: wire.mint,
            token_amount: TokenAmountView::normalized(wire.ui_token_amount),
        }
    }

    /// The balances that the wire's balances are handed on as, in their order.
    pub open spec fn normalized_all(wire: Seq<UiTransactionTokenBalanceView>) -> Seq<
        TokenBalanceView,
    > {
        Seq::new(wire.len(), |i: int| TokenBalanceView::normalized(wire[i]))
    }
}

/// A list that the node may have left out: empty where it did.
pub open spec fn or_empty<T>(list: Option<Seq<T>>) -> Seq<T> {
    match list {
        Some(items) => items,
        None => Seq::empty(),
    }
}

impl MetadataView {
    /// What the wire's record of an execution is handed on as. The error, the
    /// fee and the balances stand as they are; a list that the node left out
    /// is empty.
    pub open spec fn normalized(wire: UiTransactionStatusMetaView) -> MetadataView {
        MetadataView {
            err: wire.err,
            fee: wire.fee,
            pre_balances: wire.pre_balances,
            post_balances: wire.post_balances,
            log_messages: or_empty(wire.log_messages),
            pre_token_balances: match wire.pre_token_balances {
                Some(balances) => TokenBalanceView::normalized_all(balances),
                None => Seq::empty(),
            },
            post_token_balances: match wire.post_token_balances {
                Some(balances) => TokenBalanceView::normalized_all(balances),
                None => Seq::empty(),
            },
            rewards: or_empty(wire.rewards),
        }
    }
}

impl MessageView {
    /// The head of a raw message: its account keys and the counts of its
    /// header.
    pub open spec fn normalized(wire: UiRawMessageView) -> MessageView {
        MessageView {
            account_keys: wire.account_keys,
            num_required_signatures: wire.header.num_required_signatures,
            num_readonly_signed_accounts: wire.header.num_readonly_signed_accounts,
            num_readonly_unsigned_accounts: wire.header.num_readonly_unsigned_accounts,
        }
    }
}

impl TransactionView {
    /// Whether the normaliser translates the transaction: it is written out
    /// as an object, and its message is a raw message.
    pub open spec fn supported(wire: EncodedTransactionWithStatusMetaView) -> bool {
        wire.transaction matches EncodedTransactionView::Json(tx) && tx.message is Raw
    }

    /// What the wire's transaction is handed on as, or why it is not.
    pub open spec fn normalized(wire: EncodedTransactionWithStatusMetaView) -> SolProbeResult<
        TransactionView,
    > {
        match wire.transaction {
            EncodedTransactionView::Json(tx) => match tx.message {
                UiMessageView::Raw(message) => Ok(
                    TransactionView {
                        signatures: tx.signatures,
                        message: MessageView::normalized(message),
                        metadata: match wire.meta {
                            Some(meta) => Some(MetadataView::normalized(meta)),
                            None => None,
                        },
                    },
                ),
                _ => Err(SolProbeError::UnsupportedMessageType),
            },
            _ => Err(SolProbeError::UnsupportedEncoding),
        }
    }
}

/// A transaction is normalised exactly when it is supported.
pub proof fn lemma_supported_iff_normalized(wire: EncodedTransactionWithStatusMetaView)
    ensures
        TransactionView::supported(wire) <==> TransactionView::normalized(wire) is Ok,
{
}

/// A list that the node left out of its record of an execution is handed on
/// as an empty list.
pub proof fn lemma_absent_lists_are_empty(wire: UiTransactionStatusMetaView)
    ensures
        wire.log_messages is None ==> MetadataView::normalized(wire).log_messages
            == Seq::<Seq<char>>::empty(),
        wire.pre_token_balances is None ==> MetadataView::normalized(wire).pre_token_balances
            == Seq::<TokenBalanceView>::empty(),
        wire.post_token_balances is None ==> MetadataView::normalized(wire).post_token_balances
            == Seq::<TokenBalanceView>::empty(),
        wire.rewards is None ==> MetadataView::normalized(wire).rewards
            == Seq::<RewardView>::empty(),
{
}

/// A list that the node wrote into its record of an execution is handed on
/// item by item, in its order.
pub proof fn lemma_present_lists_are_kept(wire: UiTransactionStatusMetaView)
    ensures
        wire.log_messages matches Some(list) ==> MetadataView::normalized(wire).log_messages
            == list,
        wire.rewards matches Some(list) ==> MetadataView::normalized(wire).rewards == list,
        wire.pre_token_balances matches Some(list) ==> {
            let kept = MetadataView::normalized(wire).pre_token_balances;
            &&& kept.len() == list.len()
            &&& forall|i: int|
                0 <= i < list.len() ==> kept[i] == TokenBalanceView::normalized(#[trigger] list[i])
        },
        wire.post_token_balances matches Some(list) ==> {
            let kept = MetadataView::normalized(wire).post_token_balances;
            &&& kept.len() == list.len()
            &&& forall|i: int|
                0 <= i < list.len() ==> kept[i] == TokenBalanceView::normalized(#[trigger] list[i])
        },
{
}

impl From<UiTokenAmount> for TokenAmount {
    fn from(value: UiTokenAmount) -> (amount: TokenAmount)
        ensures
            amount.deep_view() == TokenAmountView::normalized(value.deep_view()),
    {
        Self {
            amount: value.ui_amount,
            decimals: value.decimals,
            string_amount: value.amount,
            string_decimals: value.ui_amount_string,
        }
    }
}

impl FromSpecImpl<UiTokenAmount> for TokenAmount {
    open spec fn obeys_from_spec() -> bool {
        true
    }

    open spec fn from_spec(value: UiTokenAmount) -> TokenAmount {
        TokenAmount {
            amount: value.ui_amount,
            decimals: value.decimals,
            string_amount: value.amount,
            string_decimals: value.ui_amount_string,
        }
    }
}

impl From<UiTransactionTokenBalance> for TokenBalance {
    fn from(value: UiTransactionTokenBalance) -> (balance: TokenBalance)
        ensures
            balance.deep_view() == TokenBalanceView::normalized(value.deep_view()),
    {
        Self {
            account_index: value.account_index,
            mint: value.mint,
            token_amount: TokenAmount::from(value.ui_token_amount),
        }
    }
}

impl FromSpecImpl<UiTransactionTokenBalance> for TokenBalance {
    open spec fn obeys_from_spec() -> bool {
        true
    }

    open spec fn from_spec(value: UiTransactionTokenBalance) -> TokenBalance {
        TokenBalance {
            account_index: value.account_index,
            mint: value.mint,
            token_amount: TokenAmount {
                amount: value.ui_token_amount.ui_amount,
                decimals: value.ui_token_amount.decimals,
                string_amount: value.ui_token_amount.amount,
                string_decimals: value.ui_token_amount.ui_amount_string,
            },
        }
    }
}

impl TokenBalance {
    /// Hands on each of the wire's balances, in their order.
    pub fn to_token_balance(value: Vec<UiTransactionTokenBalance>) -> (balances: Vec<Self>)
        ensures
            balances.deep_view() == TokenBalanceView::normalized_all(value.deep_view()),
    {
        let ghost wire = value.deep_view();
        let mut token_balances: Vec<TokenBalance> = Vec::new();
        for token_balance in it: value
            invariant
                wire.len() == it.seq().len(),
                forall|j: int| 0 <= j < wire.len() ==> wire[j] == it.seq()[j].deep_view(),
                token_balances@.len() == it.index(),
                forall|j: int|
                    0 <= j < it.index() ==> token_balances@[j].deep_view()
                        == TokenBalanceView::normalized(wire[j]),
        {
            token_balances.push(TokenBalance::from(token_balance));
        }
        assert(token_balances.deep_view() =~= TokenBalanceView::normalized_all(wire));
        token_balances
    }
}

impl From<UiTransactionStatusMeta> for Metadata {
    fn from(value: UiTransactionStatusMeta) -> (metadata: Metadata)
        ensures
            metadata.deep_view() == MetadataView::normalized(value.deep_view()),
    {
        let ghost wire = value.deep_view();
        let metadata = Self {
            err: value.err,
            fee: value.fee,
            pre_balances: value.pre_balances,
            post_balances: value.post_balances,
            log_messages: match value.log_messages {
                Some(messages) => messages,
                None => Vec::new(),
            },
            pre_token_balances: match value.pre_token_balances {
                Some(balances) => TokenBalance::to_token_balance(balances),
                None => Vec::new(),
            },
            post_token_balances: match value.post_token_balances {
                Some(balances) => TokenBalance::to_token_balance(balances),
                None => Vec::new(),
            },
            rewards: match value.rewards {
                Some(rewards) => rewards,
                None => Vec::new(),
            },
        };
        proof {
            let kept = metadata.deep_view();
            let expected = MetadataView::normalized(wire);
            assert(kept.log_messages =~= expected.log_messages);
            assert(kept.pre_token_balances =~= expected.pre_token_balances);
            assert(kept.post_token_balances =~= expected.post_token_balances);
            assert(kept.rewards =~= expected.rewards);
        }
        metadata
    }
}

impl FromSpecImpl<UiTransactionStatusMeta> for Metadata {
    /// The result holds lists that `from` makes anew, which no expression
    /// over the argument names: `from` states its result over the models.
    open spec fn obeys_from_spec() -> bool {
        false
    }

    open spec fn from_spec(value: UiTransactionStatusMeta) -> Metadata {
        arbitrary()
    }
}

impl Default for Message {
    fn default() -> (message: Message)
        ensures
            message.deep_view() == (MessageView {
                account_keys: Seq::empty(),
                num_required_signatures: 0,
                num_readonly_signed_accounts: 0,
                num_readonly_unsigned_accounts: 0,
            }),
    {
        let message = Self {
            account_keys: Vec::new(),
            num_required_signatures: 0,
            num_readonly_signed_accounts: 0,
            num_readonly_unsigned_accounts: 0,
        };
        assert(message.account_keys.deep_view() =~= Seq::empty());
        message
    }
}

impl Transaction {
    /// A transaction with no signatures, no account keys and no metadata.
    pub fn new() -> (transaction: Transaction)
        ensures
            transaction.deep_view() == (TransactionView {
                signatures: Seq::empty(),
                message: MessageView {
                    account_keys: Seq::empty(),
                    num_required_signatures: 0,
                    num_readonly_signed_accounts: 0,
                    num_readonly_unsigned_accounts: 0,
                },
                metadata: None,
            }),
    {
        let transaction = Self {
            signatures: Vec::new(),
            message: Message::default(),
            metadata: None,
        };
        assert(transaction.signatures.deep_view() =~= Seq::empty());
        transaction
    }

    /// Fills `self` from the wire's transaction. Where the transaction is not
    /// supported, `self` is left as it was.
    pub fn decode_tx(&mut self, encoded_transaction: &EncodedTransactionWithStatusMeta) -> (r:
        SolProbeResult<&mut Self>)
        ensures
            match TransactionView::normalized(encoded_transaction.deep_view()) {
                Ok(decoded) => r is Ok && (*r->Ok_0).deep_view() == decoded && *final(self)
                    == *final(r->Ok_0),
                Err(error) => r is Err && r->Err_0 == error && *final(self) == *old(self),
            },
    {
        let transaction = match self.destruct_encoding(&encoded_transaction.transaction) {
            Ok(transaction) => transaction,
            Err(error) => {
                return Err(error);
            },
        };
        let message = match self.destruct_ui_message(&transaction.message) {
            Ok(message) => message,
            Err(error) => {
                return Err(error);
            },
        };

        self.signatures = transaction.signatures;
        self.message = Message {
            account_keys: message.account_keys,
            num_required_signatures: message.header.num_required_signatures,
            num_readonly_signed_accounts: message.header.num_readonly_signed_accounts,
            num_readonly_unsigned_accounts: message.header.num_readonly_unsigned_accounts,
        };
        self.metadata = match &encoded_transaction.meta {
            Some(metadata) => Some(Metadata::from(metadata.clone())),
            None => None,
        };

        Ok(self)
    }

    /// The transaction that is written out as an object; no other encoding
    /// is translated.
    fn destruct_encoding(&self, encoding: &EncodedTransaction) -> (r: SolProbeResult<UiTransaction>)
        ensures
            match encoding.deep_view() {
                EncodedTransactionView::Json(tx) => r is Ok && r->Ok_0.deep_view() == tx,
                _ => r == Err::<UiTransaction, SolProbeError>(SolProbeError::UnsupportedEncoding),
            },
    {
        match encoding {
            EncodedTransaction::Json(encoded_data) => Ok(encoded_data.clone()),
            _ => Err(SolProbeError::UnsupportedEncoding),
        }
    }

    /// The raw message; no other form of message is translated.
    pub fn destruct_ui_message(&self, encoding: &UiMessage) -> (r: Result<
        UiRawMessage,
        SolProbeError,
    >)
        ensures
            match encoding.deep_view() {
                UiMessageView::Raw(message) => r is Ok && r->Ok_0.deep_view() == message,
                _ => r == Err::<UiRawMessage, SolProbeError>(SolProbeError::UnsupportedMessageType),
            },
    {
        match encoding {
            UiMessage::Raw(raw_message) => Ok(raw_message.clone()),
            _ => Err(SolProbeError::UnsupportedMessageType),
        }
    }
}

} // verus!
