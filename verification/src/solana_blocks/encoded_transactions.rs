//! Transactions in the node's encodings, and the ledger's record of their
//! execution.

use crate::json::{
    lemma_lookup_first, lemma_members_view, lemma_values_view, Number, Value, ValueView,
};
use crate::solana_blocks::errors::{tagged, tagged_value, TransactionError, TransactionErrorView};
use crate::solana_blocks::global::{BlockResult, Rewards, StringAmount, StringDecimals};
use crate::solana_blocks::instructions::{UiInnerInstructions, UiInnerInstructionsView};
use crate::solana_blocks::messages::{UiMessage, UiMessageView};
use crate::text::str_eq;
use crate::wire::{
    encoded_option, field, lemma_field_round_trip, lemma_optional_field_round_trip,
    option_to_value, optional_field, read_field, read_optional_field, Wire,
};
use vstd::prelude::*;

verus! {

/// A transaction of a block as the node writes it, with what the ledger
/// recorded of its execution, where the node has it.
#[derive(Debug, PartialEq)]
pub struct EncodedTransactionWithStatusMeta {
    pub transaction: EncodedTransaction,
    pub meta: Option<UiTransactionStatusMeta>,
}

/// The mathematical model of a [`EncodedTransactionWithStatusMeta`].
pub struct EncodedTransactionWithStatusMetaView {
    pub transaction: EncodedTransactionView,
    pub meta: Option<UiTransactionStatusMetaView>,
}

impl DeepView for EncodedTransactionWithStatusMeta {
    type V = EncodedTransactionWithStatusMetaView;

    open spec fn deep_view(&self) -> EncodedTransactionWithStatusMetaView {
        EncodedTransactionWithStatusMetaView {
            transaction: self.transaction.deep_view(),
            meta: self.meta.deep_view(),
        }
    }
}

impl Clone for EncodedTransactionWithStatusMeta {
    fn clone(&self) -> (copy: EncodedTransactionWithStatusMeta)
        ensures
            copy.deep_view() == self.deep_view(),
    {
        EncodedTransactionWithStatusMeta {
            transaction: self.transaction.clone(),
            meta: self.meta.clone(),
        }
    }
}

impl Wire for EncodedTransactionWithStatusMeta {
    open spec fn encoded(v: EncodedTransactionWithStatusMetaView) -> ValueView {
        ValueView::Object(
            seq![
                ("transaction"@, EncodedTransaction::encoded(v.transaction)),
                ("meta"@, encoded_option::<UiTransactionStatusMeta>(v.meta)),
            ],
        )
    }

    open spec fn decoded(w: ValueView) -> Option<EncodedTransactionWithStatusMetaView> {
        let transaction = field::<EncodedTransaction>(w, "transaction"@);
        let meta = optional_field::<UiTransactionStatusMeta>(w, "meta"@);
        if transaction is Some && meta is Some {
            Some(
                EncodedTransactionWithStatusMetaView {
                    transaction: transaction->Some_0,
                    meta: meta->Some_0,
                },
            )
        } else {
            None
        }
    }

    proof fn lemma_round_trip(v: EncodedTransactionWithStatusMetaView) {
        let w = Self::encoded(v);
        let members = w->Object_0;
        reveal_strlit("transaction");
        reveal_strlit("meta");
        assert("transaction"@.len() == 11);
        assert("meta"@.len() == 4);
        lemma_lookup_first(members, "transaction"@, 0);
        lemma_lookup_first(members, "meta"@, 1);
        lemma_field_round_trip::<EncodedTransaction>(w, "transaction"@, v.transaction);
        lemma_optional_field_round_trip::<UiTransactionStatusMeta>(w, "meta"@, v.meta);
    }

    fn to_value(&self) -> (w: Value) {
        let mut members: Vec<(String, Value)> = Vec::new();
        members.push(("transaction".to_owned(), self.transaction.to_value()));
        members.push(("meta".to_owned(), option_to_value::<UiTransactionStatusMeta>(&self.meta)));
        let w = Value::Object(members);
        proof {
            lemma_members_view(members@);
            assert(w.deep_view()->Object_0 =~= Self::encoded(self.deep_view())->Object_0);
        }
        w
    }

    fn from_value(w: &Value) -> (r: Option<EncodedTransactionWithStatusMeta>) {
        let transaction = read_field::<EncodedTransaction>(w, "transaction")?;
        let meta = read_optional_field::<UiTransactionStatusMeta>(w, "meta")?;
        Some(EncodedTransactionWithStatusMeta { transaction, meta })
    }
}

/// A transaction in one of the encodings that the node offers.
///
/// The wire form carries no tag. Reading tries the shapes in the order in
/// which the cases are declared and takes the first that fits: a string, then
/// an array of a string and an encoding's name, then a transaction written
/// out as an object.
#[derive(Debug, PartialEq)]
pub enum EncodedTransaction {
    /// Base 58 text, as the node wrote it before encodings had names.
    LegacyBinary(String),
    Binary(String, UiTransactionEncoding),
    Json(UiTransaction),
}

/// The mathematical model of an [`EncodedTransaction`].
pub enum EncodedTransactionView {
    LegacyBinary(Seq<char>),
    Binary(Seq<char>, UiTransactionEncoding),
    Json(UiTransactionView),
}

impl DeepView for EncodedTransaction {
    type V = EncodedTransactionView;

    open spec fn deep_view(&self) -> EncodedTransactionView {
        match self {
            EncodedTransaction::LegacyBinary(text) => EncodedTransactionView::LegacyBinary(text@),
            EncodedTransaction::Binary(text, encoding) => EncodedTransactionView::Binary(
                text@,
                *encoding,
            ),
            EncodedTransaction::Json(tx) => EncodedTransactionView::Json(tx.deep_view()),
        }
    }
}

impl Clone for EncodedTransaction {
    fn clone(&self) -> (copy: EncodedTransaction)
        ensures
            copy.deep_view() == self.deep_view(),
    {
        match self {
            EncodedTransaction::LegacyBinary(text) => EncodedTransaction::LegacyBinary(
                text.clone(),
            ),
            EncodedTransaction::Binary(text, encoding) => EncodedTransaction::Binary(
                text.clone(),
                *encoding,
            ),
            EncodedTransaction::Json(tx) => EncodedTransaction::Json(tx.clone()),
        }
    }
}

/// The text and the encoding that an array of the two stands for.
pub open spec fn decoded_binary(w: ValueView) -> Option<(Seq<char>, UiTransactionEncoding)> {
    match w {
        ValueView::Array(pair) if pair.len() == 2 => match (
            String::decoded(pair[0]),
            UiTransactionEncoding::decoded(pair[1]),
        ) {
            (Some(text), Some(encoding)) => Some((text, encoding)),
            _ => None,
        },
        _ => None,
    }
}

/// The text and the encoding that an array of the two stands for.
pub fn read_binary(w: &Value) -> (r: Option<(String, UiTransactionEncoding)>)
    ensures
        r.deep_view() == decoded_binary(w.deep_view()),
{
    match w {
        Value::Array(pair) => {
            proof {
                lemma_values_view(pair@);
            }
            if pair.len() != 2 {
                return None;
            }
            match (String::from_value(&pair[0]), UiTransactionEncoding::from_value(&pair[1])) {
                (Some(text), Some(encoding)) => Some((text, encoding)),
                _ => None,
            }
        },
        _ => None,
    }
}

impl Wire for EncodedTransaction {
    open spec fn encoded(v: EncodedTransactionView) -> ValueView {
        match v {
            EncodedTransactionView::LegacyBinary(text) => String::encoded(text),
            EncodedTransactionView::Binary(text, encoding) => ValueView::Array(
                seq![String::encoded(text), UiTransactionEncoding::encoded(encoding)],
            ),
            EncodedTransactionView::Json(tx) => UiTransaction::encoded(tx),
        }
    }

    open spec fn decoded(w: ValueView) -> Option<EncodedTransactionView> {
        match String::decoded(w) {
            Some(text) => Some(EncodedTransactionView::LegacyBinary(text)),
            None => match decoded_binary(w) {
                Some((text, encoding)) => Some(EncodedTransactionView::Binary(text, encoding)),
                None => match UiTransaction::decoded(w) {
                    Some(tx) => Some(EncodedTransactionView::Json(tx)),
                    None => None,
                },
            },
        }
    }

    proof fn lemma_round_trip(v: EncodedTransactionView) {
        match v {
            EncodedTransactionView::LegacyBinary(text) => {},
            EncodedTransactionView::Binary(text, encoding) => {
                UiTransactionEncoding::lemma_round_trip(encoding);
            },
            EncodedTransactionView::Json(tx) => {
                UiTransaction::lemma_round_trip(tx);
            },
        }
    }

    fn to_value(&self) -> (w: Value) {
        match self {
            EncodedTransaction::LegacyBinary(text) => text.to_value(),
            EncodedTransaction::Binary(text, encoding) => {
                let mut pair: Vec<Value> = Vec::new();
                pair.push(text.to_value());
                pair.push(encoding.to_value());
                let w = Value::Array(pair);
                proof {
                    lemma_values_view(pair@);
                    assert(w.deep_view()->Array_0 =~= Self::encoded(self.deep_view())->Array_0);
                }
                w
            },
            EncodedTransaction::Json(tx) => tx.to_value(),
        }
    }

    fn from_value(w: &Value) -> (r: Option<EncodedTransaction>) {
        match String::from_value(w) {
            Some(text) => Some(EncodedTransaction::LegacyBinary(text)),
            None => match read_binary(w) {
                Some((text, encoding)) => Some(EncodedTransaction::Binary(text, encoding)),
                None => match UiTransaction::from_value(w) {
                    Some(tx) => Some(EncodedTransaction::Json(tx)),
                    None => None,
                },
            },
        }
    }
}

/// The names of the encodings in which the node offers a transaction.
#[derive(Debug, PartialEq, Eq, Clone, Copy, Structural)]
pub enum UiTransactionEncoding {
    /// The old name of base 58.
    Binary,
    Base64,
    Base58,
    Json,
    JsonParsed,
}

impl DeepView for UiTransactionEncoding {
    type V = UiTransactionEncoding;

    open spec fn deep_view(&self) -> UiTransactionEncoding {
        *self
    }
}

impl UiTransactionEncoding {
    /// The name under which the case is written to the wire.
    pub open spec fn spec_tag(self) -> Seq<char> {
        match self {
            UiTransactionEncoding::Binary => "binary"@,
            UiTransactionEncoding::Base64 => "base64"@,
            UiTransactionEncoding::Base58 => "base58"@,
            UiTransactionEncoding::Json => "json"@,
            UiTransactionEncoding::JsonParsed => "jsonParsed"@,
        }
    }

    /// The case that is written as `tag`.
    pub open spec fn spec_from_tag(tag: Seq<char>) -> Option<UiTransactionEncoding> {
        if tag == "binary"@ {
            Some(UiTransactionEncoding::Binary)
        } else if tag == "base64"@ {
            Some(UiTransactionEncoding::Base64)
        } else if tag == "base58"@ {
            Some(UiTransactionEncoding::Base58)
        } else if tag == "json"@ {
            Some(UiTransactionEncoding::Json)
        } else if tag == "jsonParsed"@ {
            Some(UiTransactionEncoding::JsonParsed)
        } else {
            None
        }
    }

    /// The name under which the case is written to the wire.
    pub fn tag(&self) -> (name: &'static str)
        ensures
            name@ == self.spec_tag(),
    {
        match self {
            UiTransactionEncoding::Binary => "binary",
            UiTransactionEncoding::Base64 => "base64",
            UiTransactionEncoding::Base58 => "base58",
            UiTransactionEncoding::Json => "json",
            UiTransactionEncoding::JsonParsed => "jsonParsed",
        }
    }

    /// The case that is written as `tag`.
    pub fn from_tag(tag: &str) -> (found: Option<UiTransactionEncoding>)
        ensures
            found == UiTransactionEncoding::spec_from_tag(tag@),
    {
        if str_eq(tag, "binary") {
            Some(UiTransactionEncoding::Binary)
        } else if str_eq(tag, "base64") {
            Some(UiTransactionEncoding::Base64)
        } else if str_eq(tag, "base58") {
            Some(UiTransactionEncoding::Base58)
        } else if str_eq(tag, "json") {
            Some(UiTransactionEncoding::Json)
        } else if str_eq(tag, "jsonParsed") {
            Some(UiTransactionEncoding::JsonParsed)
        } else {
            None
        }
    }
}

/// The names of the encodings differ from one another.
pub proof fn lemma_encoding_tags(a: UiTransactionEncoding, b: UiTransactionEncoding)
    requires
        a.spec_tag() == b.spec_tag(),
    ensures
        a == b,
{
    reveal_strlit("binary");
    reveal_strlit("base64");
    reveal_strlit("base58");
    reveal_strlit("json");
    reveal_strlit("jsonParsed");
    assert("binary"@.len() == 6 && "binary"@[4] == 'r');
    assert("base64"@.len() == 6 && "base64"@[4] == '6');
    assert("base58"@.len() == 6 && "base58"@[4] == '5');
    assert("json"@.len() == 4);
    assert("jsonParsed"@.len() == 10 && "jsonParsed"@[4] == 'P');
}

impl Wire for UiTransactionEncoding {
    open spec fn encoded(v: UiTransactionEncoding) -> ValueView {
        ValueView::String(v.spec_tag())
    }

    open spec fn decoded(w: ValueView) -> Option<UiTransactionEncoding> {
        match w {
            ValueView::String(tag) => UiTransactionEncoding::spec_from_tag(tag),
            _ => None,
        }
    }

    proof fn lemma_round_trip(v: UiTransactionEncoding) {
        let found = UiTransactionEncoding::spec_from_tag(v.spec_tag());
        assert(found is Some);
        lemma_encoding_tags(found->Some_0, v);
    }

    fn to_value(&self) -> (w: Value) {
        Value::String(self.tag().to_owned())
    }

    fn from_value(w: &Value) -> (r: Option<UiTransactionEncoding>) {
        match w {
            Value::String(tag) => UiTransactionEncoding::from_tag(tag.as_str()),
            _ => None,
        }
    }
}

/// An account of a parsed message, with its role in the transaction.
#[derive(Debug, PartialEq)]
pub struct ParsedAccount {
    pub pubkey: String,
    pub writable: bool,
    pub signer: bool,
}

/// The mathematical model of a [`ParsedAccount`].
pub struct ParsedAccountView {
    pub pubkey: Seq<char>,
    pub writable: bool,
    pub signer: bool,
}

impl DeepView for ParsedAccount {
    type V = ParsedAccountView;

    open spec fn deep_view(&self) -> ParsedAccountView {
        ParsedAccountView {
            pubkey: self.pubkey.deep_view(),
            writable: self.writable.deep_view(),
            signer: self.signer.deep_view(),
        }
    }
}

impl Clone for ParsedAccount {
    fn clone(&self) -> (copy: ParsedAccount)
        ensures
            copy.deep_view() == self.deep_view(),
    {
        ParsedAccount {
            pubkey: self.pubkey.clone(),
            writable: self.writable.clone(),
            signer: self.signer.clone(),
        }
    }
}

impl Wire for ParsedAccount {
    open spec fn encoded(v: ParsedAccountView) -> ValueView {
        ValueView::Object(
            seq![
                ("pubkey"@, String::encoded(v.pubkey)),
                ("writable"@, bool::encoded(v.writable)),
                ("signer"@, bool::encoded(v.signer)),
            ],
        )
    }

    open spec fn decoded(w: ValueView) -> Option<ParsedAccountView> {
        let pubkey = field::<String>(w, "pubkey"@);
        let writable = field::<bool>(w, "writable"@);
        let signer = field::<bool>(w, "signer"@);
        if pubkey is Some && writable is Some && signer is Some {
            Some(
                ParsedAccountView {
                    pubkey: pubkey->Some_0,
                    writable: writable->Some_0,
                    signer: signer->Some_0,
                },
            )
        } else {
            None
        }
    }

    proof fn lemma_round_trip(v: ParsedAccountView) {
        let w = Self::encoded(v);
        let members = w->Object_0;
        reveal_strlit("pubkey");
        reveal_strlit("writable");
        reveal_strlit("signer");
        assert("pubkey"@.len() == 6 && "pubkey"@[0] == 'p');
        assert("writable"@.len() == 8 && "writable"@[0] == 'w');
        assert("signer"@.len() == 6 && "signer"@[0] == 's');
        lemma_lookup_first(members, "pubkey"@, 0);
        lemma_lookup_first(members, "writable"@, 1);
        lemma_lookup_first(members, "signer"@, 2);
        lemma_field_round_trip::<String>(w, "pubkey"@, v.pubkey);
        lemma_field_round_trip::<bool>(w, "writable"@, v.writable);
        lemma_field_round_trip::<bool>(w, "signer"@, v.signer);
    }

    fn to_value(&self) -> (w: Value) {
        let mut members: Vec<(String, Value)> = Vec::new();
        members.push(("pubkey".to_owned(), self.pubkey.to_value()));
        members.push(("writable".to_owned(), self.writable.to_value()));
        members.push(("signer".to_owned(), self.signer.to_value()));
        let w = Value::Object(members);
        proof {
            lemma_members_view(members@);
            assert(w.deep_view()->Object_0 =~= Self::encoded(self.deep_view())->Object_0);
        }
        w
    }

    fn from_value(w: &Value) -> (r: Option<ParsedAccount>) {
        let pubkey = read_field::<String>(w, "pubkey")?;
        let writable = read_field::<bool>(w, "writable")?;
        let signer = read_field::<bool>(w, "signer")?;
        Some(ParsedAccount { pubkey, writable, signer })
    }
}

/// The model of a transaction's outcome.
pub open spec fn status_view(status: BlockResult<()>) -> Result<(), TransactionErrorView> {
    match status {
        Ok(_) => Ok(()),
        Err(error) => Err(error.deep_view()),
    }
}

/// The wire form of an outcome: an object with the one member `Ok`, which
/// holds `null`, or `Err`, which holds the error.
pub open spec fn encoded_status(status: Result<(), TransactionErrorView>) -> ValueView {
    match status {
        Ok(_) => tagged("Ok"@, ValueView::Null),
        Err(error) => tagged("Err"@, TransactionError::encoded(error)),
    }
}

/// The outcome that `w` is the wire form of.
pub open spec fn decoded_status(w: ValueView) -> Option<Result<(), TransactionErrorView>> {
    match w {
        ValueView::Object(members) if members.len() == 1 => {
            if members[0].0 == "Ok"@ {
                if members[0].1 is Null {
                    Some(Ok(()))
                } else {
                    None
                }
            } else if members[0].0 == "Err"@ {
                match TransactionError::decoded(members[0].1) {
                    Some(error) => Some(Err(error)),
                    None => None,
                }
            } else {
                None
            }
        },
        _ => None,
    }
}

/// The member `key` of `w`, read as an outcome.
pub open spec fn status_field(w: ValueView, key: Seq<char>) -> Option<
    Result<(), TransactionErrorView>,
> {
    match w.member(key) {
        Some(m) => decoded_status(m),
        None => None,
    }
}

/// A member that holds the wire form of an outcome is read back as that
/// outcome.
pub proof fn lemma_status_round_trip(
    w: ValueView,
    key: Seq<char>,
    status: Result<(), TransactionErrorView>,
)
    requires
        w.member(key) == Some(encoded_status(status)),
    ensures
        status_field(w, key) == Some(status),
{
    reveal_strlit("Ok");
    reveal_strlit("Err");
    assert("Ok"@.len() == 2);
    assert("Err"@.len() == 3);
    match status {
        Ok(unit) => {
            assert(unit == ());
        },
        Err(error) => {
            TransactionError::lemma_round_trip(error);
        },
    }
}

/// Writes an outcome in its wire form.
pub fn status_to_value(status: &BlockResult<()>) -> (w: Value)
    ensures
        w.deep_view() == encoded_status(status_view(*status)),
{
    match status {
        Ok(_) => tagged_value("Ok", Value::Null),
        Err(error) => tagged_value("Err", error.to_value()),
    }
}

/// Reads the member `key` of `w` as an outcome.
pub fn read_status(w: &Value, key: &str) -> (r: Option<BlockResult<()>>)
    ensures
        match r {
            Some(status) => status_field(w.deep_view(), key@) == Some(status_view(status)),
            None => status_field(w.deep_view(), key@) is None,
        },
{
    match w.get(key) {
        Some(Value::Object(members)) => {
            proof {
                lemma_members_view(members@);
            }
            if members.len() != 1 {
                return None;
            }
            let tag = members[0].0.as_str();
            if str_eq(tag, "Ok") {
                match &members[0].1 {
                    Value::Null => Some(Ok(())),
                    _ => None,
                }
            } else if str_eq(tag, "Err") {
                match TransactionError::from_value(&members[0].1) {
                    Some(error) => Some(Err(error)),
                    None => None,
                }
            } else {
                None
            }
        },
        _ => None,
    }
}

/// A copy of an outcome.
pub fn clone_status(status: &BlockResult<()>) -> (copy: BlockResult<()>)
    ensures
        status_view(copy) == status_view(*status),
{
    match status {
        Ok(_) => Ok(()),
        Err(error) => Err(error.clone()),
    }
}

/// What the ledger recorded of a transaction's execution. The node leaves out
/// the lists that it did not record.
#[derive(Debug, PartialEq)]
pub struct UiTransactionStatusMeta {
    pub err: Option<TransactionError>,
    /// The outcome once more, in an older form.
    pub status: BlockResult<()>,
    pub fee: u64,
    pub pre_balances: Vec<u64>,
    pub post_balances: Vec<u64>,
    pub inner_instructions: Option<Vec<UiInnerInstructions>>,
    pub log_messages: Option<Vec<String>>,
    pub pre_token_balances: Option<Vec<UiTransactionTokenBalance>>,
    pub post_token_balances: Option<Vec<UiTransactionTokenBalance>>,
    pub rewards: Option<Rewards>,
}

/// The mathematical model of a [`UiTransactionStatusMeta`].
pub struct UiTransactionStatusMetaView {
    pub err: Option<TransactionErrorView>,
    pub status: Result<(), TransactionErrorView>,
    pub fee: u64,
    pub pre_balances: Seq<u64>,
    pub post_balances: Seq<u64>,
    pub inner_instructions: Option<Seq<UiInnerInstructionsView>>,
    pub log_messages: Option<Seq<Seq<char>>>,
    pub pre_token_balances: Option<Seq<UiTransactionTokenBalanceView>>,
    pub post_token_balances: Option<Seq<UiTransactionTokenBalanceView>>,
    pub rewards: Option<Seq<RewardView>>,
}

impl DeepView for UiTransactionStatusMeta {
    type V = UiTransactionStatusMetaView;

    open spec fn deep_view(&self) -> UiTransactionStatusMetaView {
        UiTransactionStatusMetaView {
            err: self.err.deep_view(),
            status: status_view(self.status),
            fee: self.fee.deep_view(),
            pre_balances: self.pre_balances.deep_view(),
            post_balances: self.post_balances.deep_view(),
            inner_instructions: self.inner_instructions.deep_view(),
            log_messages: self.log_messages.deep_view(),
            pre_token_balances: self.pre_token_balances.deep_view(),
            post_token_balances: self.post_token_balances.deep_view(),
            rewards: self.rewards.deep_view(),
        }
    }
}

impl Clone for UiTransactionStatusMeta {
    fn clone(&self) -> (copy: UiTransactionStatusMeta)
        ensures
            copy.deep_view() == self.deep_view(),
    {
        UiTransactionStatusMeta {
            err: self.err.clone(),
            status: clone_status(&self.status),
            fee: self.fee.clone(),
            pre_balances: self.pre_balances.clone(),
            post_balances: self.post_balances.clone(),
            inner_instructions: self.inner_instructions.clone(),
            log_messages: self.log_messages.clone(),
            pre_token_balances: self.pre_token_balances.clone(),
            post_token_balances: self.post_token_balances.clone(),
            rewards: self.rewards.clone(),
        }
    }
}

impl Wire for UiTransactionStatusMeta {
    open spec fn encoded(v: UiTransactionStatusMetaView) -> ValueView {
        ValueView::Object(
            seq![
                ("err"@, encoded_option::<TransactionError>(v.err)),
                ("status"@, encoded_status(v.status)),
                ("fee"@, u64::encoded(v.fee)),
                ("preBalances"@, <Vec<u64>>::encoded(v.pre_balances)),
                ("postBalances"@, <Vec<u64>>::encoded(v.post_balances)),
                (
                    "innerInstructions"@,
                    encoded_option::<Vec<UiInnerInstructions>>(v.inner_instructions),
                ),
                ("logMessages"@, encoded_option::<Vec<String>>(v.log_messages)),
                (
                    "preTokenBalances"@,
                    encoded_option::<Vec<UiTransactionTokenBalance>>(v.pre_token_balances),
                ),
                (
                    "postTokenBalances"@,
                    encoded_option::<Vec<UiTransactionTokenBalance>>(v.post_token_balances),
                ),
                ("rewards"@, encoded_option::<Rewards>(v.rewards)),
            ],
        )
    }

    open spec fn decoded(w: ValueView) -> Option<UiTransactionStatusMetaView> {
        let err = optional_field::<TransactionError>(w, "err"@);
        let status = status_field(w, "status"@);
        let fee = field::<u64>(w, "fee"@);
        let pre_balances = field::<Vec<u64>>(w, "preBalances"@);
        let post_balances = field::<Vec<u64>>(w, "postBalances"@);
        let inner_instructions = optional_field::<Vec<UiInnerInstructions>>(
            w,
            "innerInstructions"@,
        );
        let log_messages = optional_field::<Vec<String>>(w, "logMessages"@);
        let pre_token_balances = optional_field::<Vec<UiTransactionTokenBalance>>(
            w,
            "preTokenBalances"@,
        );
        let post_token_balances = optional_field::<Vec<UiTransactionTokenBalance>>(
            w,
            "postTokenBalances"@,
        );
        let rewards = optional_field::<Rewards>(w, "rewards"@);
        if err is Some
            && status is Some
            && fee is Some
            && pre_balances is Some
            && post_balances is Some
            && inner_instructions is Some
            && log_messages is Some
            && pre_token_balances is Some
            && post_token_balances is Some
            && rewards is Some {
            Some(
                UiTransactionStatusMetaView {
                    err: err->Some_0,
                    status: status->Some_0,
                    fee: fee->Some_0,
                    pre_balances: pre_balances->Some_0,
                    post_balances: post_balances->Some_0,
                    inner_instructions: inner_instructions->Some_0,
                    log_messages: log_messages->Some_0,
                    pre_token_balances: pre_token_balances->Some_0,
                    post_token_balances: post_token_balances->Some_0,
                    rewards: rewards->Some_0,
                },
            )
        } else {
            None
        }
    }

    proof fn lemma_round_trip(v: UiTransactionStatusMetaView) {
        let w = Self::encoded(v);
        let members = w->Object_0;
        reveal_strlit("err");
        reveal_strlit("status");
        reveal_strlit("fee");
        reveal_strlit("preBalances");
        reveal_strlit("postBalances");
        reveal_strlit("innerInstructions");
        reveal_strlit("logMessages");
        reveal_strlit("preTokenBalances");
        reveal_strlit("postTokenBalances");
        reveal_strlit("rewards");
        assert("err"@.len() == 3 && "err"@[0] == 'e');
        assert("status"@.len() == 6 && "status"@[0] == 's');
        assert("fee"@.len() == 3 && "fee"@[0] == 'f');
        assert("preBalances"@.len() == 11 && "preBalances"@[0] == 'p');
        assert("postBalances"@.len() == 12 && "postBalances"@[0] == 'p');
        assert("innerInstructions"@.len() == 17 && "innerInstructions"@[0] == 'i');
        assert("logMessages"@.len() == 11 && "logMessages"@[0] == 'l');
        assert("preTokenBalances"@.len() == 16 && "preTokenBalances"@[0] == 'p');
        assert("postTokenBalances"@.len() == 17 && "postTokenBalances"@[0] == 'p');
        assert("rewards"@.len() == 7 && "rewards"@[0] == 'r');
        lemma_lookup_first(members, "err"@, 0);
        lemma_lookup_first(members, "status"@, 1);
        lemma_lookup_first(members, "fee"@, 2);
        lemma_lookup_first(members, "preBalances"@, 3);
        lemma_lookup_first(members, "postBalances"@, 4);
        lemma_lookup_first(members, "innerInstructions"@, 5);
        lemma_lookup_first(members, "logMessages"@, 6);
        lemma_lookup_first(members, "preTokenBalances"@, 7);
        lemma_lookup_first(members, "postTokenBalances"@, 8);
        lemma_lookup_first(members, "rewards"@, 9);
        lemma_optional_field_round_trip::<TransactionError>(w, "err"@, v.err);
        lemma_status_round_trip(w, "status"@, v.status);
        lemma_field_round_trip::<u64>(w, "fee"@, v.fee);
        lemma_field_round_trip::<Vec<u64>>(w, "preBalances"@, v.pre_balances);
        lemma_field_round_trip::<Vec<u64>>(w, "postBalances"@, v.post_balances);
        lemma_optional_field_round_trip::<Vec<UiInnerInstructions>>(
            w,
            "innerInstructions"@,
            v.inner_instructions,
        );
        lemma_optional_field_round_trip::<Vec<String>>(w, "logMessages"@, v.log_messages);
        lemma_optional_field_round_trip::<Vec<UiTransactionTokenBalance>>(
            w,
            "preTokenBalances"@,
            v.pre_token_balances,
        );
        lemma_optional_field_round_trip::<Vec<UiTransactionTokenBalance>>(
            w,
            "postTokenBalances"@,
            v.post_token_balances,
        );
        lemma_optional_field_round_trip::<Rewards>(w, "rewards"@, v.rewards);
    }

    fn to_value(&self) -> (w: Value) {
        let mut members: Vec<(String, Value)> = Vec::new();
        members.push(("err".to_owned(), option_to_value::<TransactionError>(&self.err)));
        members.push(("status".to_owned(), status_to_value(&self.status)));
        members.push(("fee".to_owned(), self.fee.to_value()));
        members.push(("preBalances".to_owned(), self.pre_balances.to_value()));
        members.push(("postBalances".to_owned(), self.post_balances.to_value()));
        members.push(
            (
                "innerInstructions".to_owned(),
                option_to_value::<Vec<UiInnerInstructions>>(&self.inner_instructions),
            ),
        );
        members.push(
            ("logMessages".to_owned(), option_to_value::<Vec<String>>(&self.log_messages)),
        );
        members.push(
            (
                "preTokenBalances".to_owned(),
                option_to_value::<Vec<UiTransactionTokenBalance>>(&self.pre_token_balances),
            ),
        );
        members.push(
            (
                "postTokenBalances".to_owned(),
                option_to_value::<Vec<UiTransactionTokenBalance>>(&self.post_token_balances),
            ),
        );
        members.push(("rewards".to_owned(), option_to_value::<Rewards>(&self.rewards)));
        let w = Value::Object(members);
        proof {
            lemma_members_view(members@);
            assert(w.deep_view()->Object_0 =~= Self::encoded(self.deep_view())->Object_0);
        }
        w
    }

    fn from_value(w: &Value) -> (r: Option<UiTransactionStatusMeta>) {
        let err = read_optional_field::<TransactionError>(w, "err")?;
        let status = read_status(w, "status")?;
        let fee = read_field::<u64>(w, "fee")?;
        let pre_balances = read_field::<Vec<u64>>(w, "preBalances")?;
        let post_balances = read_field::<Vec<u64>>(w, "postBalances")?;
        let inner_instructions = read_optional_field::<Vec<UiInnerInstructions>>(
            w,
            "innerInstructions",
        )?;
        let log_messages = read_optional_field::<Vec<String>>(w, "logMessages")?;
        let pre_token_balances = read_optional_field::<Vec<UiTransactionTokenBalance>>(
            w,
            "preTokenBalances",
        )?;
        let post_token_balances = read_optional_field::<Vec<UiTransactionTokenBalance>>(
            w,
            "postTokenBalances",
        )?;
        let rewards = read_optional_field::<Rewards>(w, "rewards")?;
        Some(
            UiTransactionStatusMeta {
                err,
                status,
                fee,
                pre_balances,
                post_balances,
                inner_instructions,
                log_messages,
                pre_token_balances,
                post_token_balances,
                rewards,
            },
        )
    }
}

/// The balance of a token account of a transaction.
#[derive(Debug, PartialEq)]
pub struct UiTransactionTokenBalance {
    pub account_index: u8,
    pub mint: String,
    pub ui_token_amount: UiTokenAmount,
}

/// The mathematical model of a [`UiTransactionTokenBalance`].
pub struct UiTransactionTokenBalanceView {
    pub account_index: u8,
    pub mint: Seq<char>,
    pub ui_token_amount: UiTokenAmountView,
}

impl DeepView for UiTransactionTokenBalance {
    type V = UiTransactionTokenBalanceView;

    open spec fn deep_view(&self) -> UiTransactionTokenBalanceView {
        UiTransactionTokenBalanceView {
            account_index: self.account_index.deep_view(),
            mint: self.mint.deep_view(),
            ui_token_amount: self.ui_token_amount.deep_view(),
        }
    }
}

impl Clone for UiTransactionTokenBalance {
    fn clone(&self) -> (copy: UiTransactionTokenBalance)
        ensures
            copy.deep_view() == self.deep_view(),
    {
        UiTransactionTokenBalance {
            account_index: self.account_index.clone(),
            mint: self.mint.clone(),
            ui_token_amount: self.ui_token_amount.clone(),
        }
    }
}

impl Wire for UiTransactionTokenBalance {
    open spec fn encoded(v: UiTransactionTokenBalanceView) -> ValueView {
        ValueView::Object(
            seq![
                ("accountIndex"@, u8::encoded(v.account_index)),
                ("mint"@, String::encoded(v.mint)),
                ("uiTokenAmount"@, UiTokenAmount::encoded(v.ui_token_amount)),
            ],
        )
    }

    open spec fn decoded(w: ValueView) -> Option<UiTransactionTokenBalanceView> {
        let account_index = field::<u8>(w, "accountIndex"@);
        let mint = field::<String>(w, "mint"@);
        let ui_token_amount = field::<UiTokenAmount>(w, "uiTokenAmount"@);
        if account_index is Some && mint is Some && ui_token_amount is Some {
            Some(
                UiTransactionTokenBalanceView {
                    account_index: account_index->Some_0,
                    mint: mint->Some_0,
                    ui_token_amount: ui_token_amount->Some_0,
                },
            )
        } else {
            None
        }
    }

    proof fn lemma_round_trip(v: UiTransactionTokenBalanceView) {
        let w = Self::encoded(v);
        let members = w->Object_0;
        reveal_strlit("accountIndex");
        reveal_strlit("mint");
        reveal_strlit("uiTokenAmount");
        assert("accountIndex"@.len() == 12);
        assert("mint"@.len() == 4);
        assert("uiTokenAmount"@.len() == 13);
        lemma_lookup_first(members, "accountIndex"@, 0);
        lemma_lookup_first(members, "mint"@, 1);
        lemma_lookup_first(members, "uiTokenAmount"@, 2);
        lemma_field_round_trip::<u8>(w, "accountIndex"@, v.account_index);
        lemma_field_round_trip::<String>(w, "mint"@, v.mint);
        lemma_field_round_trip::<UiTokenAmount>(w, "uiTokenAmount"@, v.ui_token_amount);
    }

    fn to_value(&self) -> (w: Value) {
        let mut members: Vec<(String, Value)> = Vec::new();
        members.push(("accountIndex".to_owned(), self.account_index.to_value()));
        members.push(("mint".to_owned(), self.mint.to_value()));
        members.push(("uiTokenAmount".to_owned(), self.ui_token_amount.to_value()));
        let w = Value::Object(members);
        proof {
            lemma_members_view(members@);
            assert(w.deep_view()->Object_0 =~= Self::encoded(self.deep_view())->Object_0);
        }
        w
    }

    fn from_value(w: &Value) -> (r: Option<UiTransactionTokenBalance>) {
        let account_index = read_field::<u8>(w, "accountIndex")?;
        let mint = read_field::<String>(w, "mint")?;
        let ui_token_amount = read_field::<UiTokenAmount>(w, "uiTokenAmount")?;
        Some(UiTransactionTokenBalance { account_index, mint, ui_token_amount })
    }
}

/// An amount of a token: the raw amount as text, the number of decimals, and
/// the amount with the decimals applied, as a number and as text.
#[derive(Debug, PartialEq)]
pub struct UiTokenAmount {
    pub ui_amount: Option<Number>,
    pub decimals: u8,
    pub amount: StringAmount,
    pub ui_amount_string: StringDecimals,
}

/// The mathematical model of a [`UiTokenAmount`].
pub struct UiTokenAmountView {
    pub ui_amount: Option<Number>,
    pub decimals: u8,
    pub amount: Seq<char>,
    pub ui_amount_string: Seq<char>,
}

impl DeepView for UiTokenAmount {
    type V = UiTokenAmountView;

    open spec fn deep_view(&self) -> UiTokenAmountView {
        UiTokenAmountView {
            ui_amount: self.ui_amount.deep_view(),
            decimals: self.decimals.deep_view(),
            amount: self.amount.deep_view(),
            ui_amount_string: self.ui_amount_string.deep_view(),
        }
    }
}

impl Clone for UiTokenAmount {
    fn clone(&self) -> (copy: UiTokenAmount)
        ensures
            copy.deep_view() == self.deep_view(),
    {
        UiTokenAmount {
            ui_amount: self.ui_amount.clone(),
            decimals: self.decimals.clone(),
            amount: self.amount.clone(),
            ui_amount_string: self.ui_amount_string.clone(),
        }
    }
}

impl Wire for UiTokenAmount {
    open spec fn encoded(v: UiTokenAmountView) -> ValueView {
        ValueView::Object(
            seq![
                ("uiAmount"@, encoded_option::<Number>(v.ui_amount)),
                ("decimals"@, u8::encoded(v.decimals)),
                ("amount"@, StringAmount::encoded(v.amount)),
                ("uiAmountString"@, StringDecimals::encoded(v.ui_amount_string)),
            ],
        )
    }

    open spec fn decoded(w: ValueView) -> Option<UiTokenAmountView> {
        let ui_amount = optional_field::<Number>(w, "uiAmount"@);
        let decimals = field::<u8>(w, "decimals"@);
        let amount = field::<StringAmount>(w, "amount"@);
        let ui_amount_string = field::<StringDecimals>(w, "uiAmountString"@);
        if ui_amount is Some && decimals is Some && amount is Some && ui_amount_string is Some {
            Some(
                UiTokenAmountView {
                    ui_amount: ui_amount->Some_0,
                    decimals: decimals->Some_0,
                    amount: amount->Some_0,
                    ui_amount_string: ui_amount_string->Some_0,
                },
            )
        } else {
            None
        }
    }

    proof fn lemma_round_trip(v: UiTokenAmountView) {
        let w = Self::encoded(v);
        let members = w->Object_0;
        reveal_strlit("uiAmount");
        reveal_strlit("decimals");
        reveal_strlit("amount");
        reveal_strlit("uiAmountString");
        assert("uiAmount"@.len() == 8 && "uiAmount"@[0] == 'u');
        assert("decimals"@.len() == 8 && "decimals"@[0] == 'd');
        assert("amount"@.len() == 6 && "amount"@[0] == 'a');
        assert("uiAmountString"@.len() == 14 && "uiAmountString"@[0] == 'u');
        lemma_lookup_first(members, "uiAmount"@, 0);
        lemma_lookup_first(members, "decimals"@, 1);
        lemma_lookup_first(members, "amount"@, 2);
        lemma_lookup_first(members, "uiAmountString"@, 3);
        lemma_optional_field_round_trip::<Number>(w, "uiAmount"@, v.ui_amount);
        lemma_field_round_trip::<u8>(w, "decimals"@, v.decimals);
        lemma_field_round_trip::<StringAmount>(w, "amount"@, v.amount);
        lemma_field_round_trip::<StringDecimals>(w, "uiAmountString"@, v.ui_amount_string);
    }

    fn to_value(&self) -> (w: Value) {
        let mut members: Vec<(String, Value)> = Vec::new();
        members.push(("uiAmount".to_owned(), option_to_value::<Number>(&self.ui_amount)));
        members.push(("decimals".to_owned(), self.decimals.to_value()));
        members.push(("amount".to_owned(), self.amount.to_value()));
        members.push(("uiAmountString".to_owned(), self.ui_amount_string.to_value()));
        let w = Value::Object(members);
        proof {
            lemma_members_view(members@);
            assert(w.deep_view()->Object_0 =~= Self::encoded(self.deep_view())->Object_0);
        }
        w
    }

    fn from_value(w: &Value) -> (r: Option<UiTokenAmount>) {
        let ui_amount = read_optional_field::<Number>(w, "uiAmount")?;
        let decimals = read_field::<u8>(w, "decimals")?;
        let amount = read_field::<StringAmount>(w, "amount")?;
        let ui_amount_string = read_field::<StringDecimals>(w, "uiAmountString")?;
        Some(UiTokenAmount { ui_amount, decimals, amount, ui_amount_string })
    }
}

/// A credit or debit that the ledger applied to an account at a block.
#[derive(Debug, PartialEq)]
pub struct Reward {
    pub pubkey: String,
    pub lamports: i64,
    /// The account's balance, in lamports, after the reward was applied.
    pub post_balance: u64,
    pub reward_type: Option<RewardType>,
    /// The vote account's commission; there for voting and staking rewards.
    pub commission: Option<u8>,
}

/// The mathematical model of a [`Reward`].
pub struct RewardView {
    pub pubkey: Seq<char>,
    pub lamports: i64,
    pub post_balance: u64,
    pub reward_type: Option<RewardType>,
    pub commission: Option<u8>,
}

impl DeepView for Reward {
    type V = RewardView;

    open spec fn deep_view(&self) -> RewardView {
        RewardView {
            pubkey: self.pubkey.deep_view(),
            lamports: self.lamports.deep_view(),
            post_balance: self.post_balance.deep_view(),
            reward_type: self.reward_type.deep_view(),
            commission: self.commission.deep_view(),
        }
    }
}

impl Clone for Reward {
    fn clone(&self) -> (copy: Reward)
        ensures
            copy.deep_view() == self.deep_view(),
    {
        Reward {
            pubkey: self.pubkey.clone(),
            lamports: self.lamports.clone(),
            post_balance: self.post_balance.clone(),
            reward_type: self.reward_type.clone(),
            commission: self.commission.clone(),
        }
    }
}

impl Wire for Reward {
    open spec fn encoded(v: RewardView) -> ValueView {
        ValueView::Object(
            seq![
                ("pubkey"@, String::encoded(v.pubkey)),
                ("lamports"@, i64::encoded(v.lamports)),
                ("postBalance"@, u64::encoded(v.post_balance)),
                ("rewardType"@, encoded_option::<RewardType>(v.reward_type)),
                ("commission"@, encoded_option::<u8>(v.commission)),
            ],
        )
    }

    open spec fn decoded(w: ValueView) -> Option<RewardView> {
        let pubkey = field::<String>(w, "pubkey"@);
        let lamports = field::<i64>(w, "lamports"@);
        let post_balance = field::<u64>(w, "postBalance"@);
        let reward_type = optional_field::<RewardType>(w, "rewardType"@);
        let commission = optional_field::<u8>(w, "commission"@);
        if pubkey is Some
            && lamports is Some
            && post_balance is Some
            && reward_type is Some
            && commission is Some {
            Some(
                RewardView {
                    pubkey: pubkey->Some_0,
                    lamports: lamports->Some_0,
                    post_balance: post_balance->Some_0,
                    reward_type: reward_type->Some_0,
                    commission: commission->Some_0,
                },
            )
        } else {
            None
        }
    }

    proof fn lemma_round_trip(v: RewardView) {
        let w = Self::encoded(v);
        let members = w->Object_0;
        reveal_strlit("pubkey");
        reveal_strlit("lamports");
        reveal_strlit("postBalance");
        reveal_strlit("rewardType");
        reveal_strlit("commission");
        assert("pubkey"@.len() == 6 && "pubkey"@[0] == 'p');
        assert("lamports"@.len() == 8 && "lamports"@[0] == 'l');
        assert("postBalance"@.len() == 11 && "postBalance"@[0] == 'p');
        assert("rewardType"@.len() == 10 && "rewardType"@[0] == 'r');
        assert("commission"@.len() == 10 && "commission"@[0] == 'c');
        lemma_lookup_first(members, "pubkey"@, 0);
        lemma_lookup_first(members, "lamports"@, 1);
        lemma_lookup_first(members, "postBalance"@, 2);
        lemma_lookup_first(members, "rewardType"@, 3);
        lemma_lookup_first(members, "commission"@, 4);
        lemma_field_round_trip::<String>(w, "pubkey"@, v.pubkey);
        lemma_field_round_trip::<i64>(w, "lamports"@, v.lamports);
        lemma_field_round_trip::<u64>(w, "postBalance"@, v.post_balance);
        lemma_optional_field_round_trip::<RewardType>(w, "rewardType"@, v.reward_type);
        lemma_optional_field_round_trip::<u8>(w, "commission"@, v.commission);
    }

    fn to_value(&self) -> (w: Value) {
        let mut members: Vec<(String, Value)> = Vec::new();
        members.push(("pubkey".to_owned(), self.pubkey.to_value()));
        members.push(("lamports".to_owned(), self.lamports.to_value()));
        members.push(("postBalance".to_owned(), self.post_balance.to_value()));
        members.push(("rewardType".to_owned(), option_to_value::<RewardType>(&self.reward_type)));
        members.push(("commission".to_owned(), option_to_value::<u8>(&self.commission)));
        let w = Value::Object(members);
        proof {
            lemma_members_view(members@);
            assert(w.deep_view()->Object_0 =~= Self::encoded(self.deep_view())->Object_0);
        }
        w
    }

    fn from_value(w: &Value) -> (r: Option<Reward>) {
        let pubkey = read_field::<String>(w, "pubkey")?;
        let lamports = read_field::<i64>(w, "lamports")?;
        let post_balance = read_field::<u64>(w, "postBalance")?;
        let reward_type = read_optional_field::<RewardType>(w, "rewardType")?;
        let commission = read_optional_field::<u8>(w, "commission")?;
        Some(Reward { pubkey, lamports, post_balance, reward_type, commission })
    }
}

/// What a reward was paid for.
#[derive(Debug, PartialEq, Eq, Clone, Copy, Structural)]
pub enum RewardType {
    Fee,
    Rent,
    Staking,
    Voting,
}

impl DeepView for RewardType {
    type V = RewardType;

    open spec fn deep_view(&self) -> RewardType {
        *self
    }
}

impl RewardType {
    /// The name under which the case is written to the wire.
    pub open spec fn spec_tag(self) -> Seq<char> {
        match self {
            RewardType::Fee => "Fee"@,
            RewardType::Rent => "Rent"@,
            RewardType::Staking => "Staking"@,
            RewardType::Voting => "Voting"@,
        }
    }

    /// The case that is written as `tag`.
    pub open spec fn spec_from_tag(tag: Seq<char>) -> Option<RewardType> {
        if tag == "Fee"@ {
            Some(RewardType::Fee)
        } else if tag == "Rent"@ {
            Some(RewardType::Rent)
        } else if tag == "Staking"@ {
            Some(RewardType::Staking)
        } else if tag == "Voting"@ {
            Some(RewardType::Voting)
        } else {
            None
        }
    }

    /// The name under which the case is written to the wire.
    pub fn tag(&self) -> (name: &'static str)
        ensures
            name@ == self.spec_tag(),
    {
        match self {
            RewardType::Fee => "Fee",
            RewardType::Rent => "Rent",
            RewardType::Staking => "Staking",
            RewardType::Voting => "Voting",
        }
    }

    /// The case that is written as `tag`.
    pub fn from_tag(tag: &str) -> (found: Option<RewardType>)
        ensures
            found == RewardType::spec_from_tag(tag@),
    {
        if str_eq(tag, "Fee") {
            Some(RewardType::Fee)
        } else if str_eq(tag, "Rent") {
            Some(RewardType::Rent)
        } else if str_eq(tag, "Staking") {
            Some(RewardType::Staking)
        } else if str_eq(tag, "Voting") {
            Some(RewardType::Voting)
        } else {
            None
        }
    }
}

/// The names of the reward types differ from one another.
pub proof fn lemma_reward_type_tags(a: RewardType, b: RewardType)
    requires
        a.spec_tag() == b.spec_tag(),
    ensures
        a == b,
{
    reveal_strlit("Fee");
    reveal_strlit("Rent");
    reveal_strlit("Staking");
    reveal_strlit("Voting");
    assert("Fee"@.len() == 3);
    assert("Rent"@.len() == 4);
    assert("Staking"@.len() == 7);
    assert("Voting"@.len() == 6);
}

impl Wire for RewardType {
    open spec fn encoded(v: RewardType) -> ValueView {
        ValueView::String(v.spec_tag())
    }

    open spec fn decoded(w: ValueView) -> Option<RewardType> {
        match w {
            ValueView::String(tag) => RewardType::spec_from_tag(tag),
            _ => None,
        }
    }

    proof fn lemma_round_trip(v: RewardType) {
        let found = RewardType::spec_from_tag(v.spec_tag());
        assert(found is Some);
        lemma_reward_type_tags(found->Some_0, v);
    }

    fn to_value(&self) -> (w: Value) {
        Value::String(self.tag().to_owned())
    }

    fn from_value(w: &Value) -> (r: Option<RewardType>) {
        match w {
            Value::String(tag) => RewardType::from_tag(tag.as_str()),
            _ => None,
        }
    }
}

/// A transaction written out as an object: its signatures and its message.
#[derive(Debug, PartialEq)]
pub struct UiTransaction {
    pub signatures: Vec<String>,
    pub message: UiMessage,
}

/// The mathematical model of a [`UiTransaction`].
pub struct UiTransactionView {
    pub signatures: Seq<Seq<char>>,
    pub message: UiMessageView,
}

impl DeepView for UiTransaction {
    type V = UiTransactionView;

    open spec fn deep_view(&self) -> UiTransactionView {
        UiTransactionView {
            signatures: self.signatures.deep_view(),
            message: self.message.deep_view(),
        }
    }
}

impl Clone for UiTransaction {
    fn clone(&self) -> (copy: UiTransaction)
        ensures
            copy.deep_view() == self.deep_view(),
    {
        UiTransaction {
            signatures: self.signatures.clone(),
            message: self.message.clone(),
        }
    }
}

impl Wire for UiTransaction {
    open spec fn encoded(v: UiTransactionView) -> ValueView {
        ValueView::Object(
            seq![
                ("signatures"@, <Vec<String>>::encoded(v.signatures)),
                ("message"@, UiMessage::encoded(v.message)),
            ],
        )
    }

    open spec fn decoded(w: ValueView) -> Option<UiTransactionView> {
        let signatures = field::<Vec<String>>(w, "signatures"@);
        let message = field::<UiMessage>(w, "message"@);
        if signatures is Some && message is Some {
            Some(
                UiTransactionView {
                    signatures: signatures->Some_0,
                    message: message->Some_0,
                },
            )
        } else {
            None
        }
    }

    proof fn lemma_round_trip(v: UiTransactionView) {
        let w = Self::encoded(v);
        let members = w->Object_0;
        reveal_strlit("signatures");
        reveal_strlit("message");
        assert("signatures"@.len() == 10);
        assert("message"@.len() == 7);
        lemma_lookup_first(members, "signatures"@, 0);
        lemma_lookup_first(members, "message"@, 1);
        lemma_field_round_trip::<Vec<String>>(w, "signatures"@, v.signatures);
        lemma_field_round_trip::<UiMessage>(w, "message"@, v.message);
    }

    fn to_value(&self) -> (w: Value) {
        let mut members: Vec<(String, Value)> = Vec::new();
        members.push(("signatures".to_owned(), self.signatures.to_value()));
        members.push(("message".to_owned(), self.message.to_value()));
        let w = Value::Object(members);
        proof {
            lemma_members_view(members@);
            assert(w.deep_view()->Object_0 =~= Self::encoded(self.deep_view())->Object_0);
        }
        w
    }

    fn from_value(w: &Value) -> (r: Option<UiTransaction>) {
        let signatures = read_field::<Vec<String>>(w, "signatures")?;
        let message = read_field::<UiMessage>(w, "message")?;
        Some(UiTransaction { signatures, message })
    }
}

} // verus!
