//! The message of a transaction, raw or parsed.

use crate::json::{
    lemma_lookup_absent, lemma_lookup_first, lemma_members_view, Value, ValueView,
};
use crate::solana_blocks::encoded_transactions::{ParsedAccount, ParsedAccountView};
use crate::solana_blocks::instructions::{
    UiCompiledInstruction, UiCompiledInstructionView, UiInstruction, UiInstructionView,
};
use crate::wire::{field, lemma_field_round_trip, read_field, Wire};
use vstd::prelude::*;

verus! {

/// The three counts at the head of a message, which say how its account keys
/// divide into signers and read-only accounts.
#[derive(Debug, PartialEq, Eq, Clone, Copy, Structural)]
pub struct MessageHeader {
    /// How many signatures the message needs; they belong to the first account
    /// keys.
    pub num_required_signatures: u8,
    /// How many of the signing accounts, counted from the last, are read-only.
    pub num_readonly_signed_accounts: u8,
    /// How many of the other accounts, counted from the last, are read-only.
    pub num_readonly_unsigned_accounts: u8,
}

impl DeepView for MessageHeader {
    type V = MessageHeader;

    open spec fn deep_view(&self) -> MessageHeader {
        *self
    }
}

impl Wire for MessageHeader {
    open spec fn encoded(v: MessageHeader) -> ValueView {
        ValueView::Object(
            seq![
                ("numRequiredSignatures"@, u8::encoded(v.num_required_signatures)),
                ("numReadonlySignedAccounts"@, u8::encoded(v.num_readonly_signed_accounts)),
                ("numReadonlyUnsignedAccounts"@, u8::encoded(v.num_readonly_unsigned_accounts)),
            ],
        )
    }

    open spec fn decoded(w: ValueView) -> Option<MessageHeader> {
        let num_required_signatures = field::<u8>(w, "numRequiredSignatures"@);
        let num_readonly_signed_accounts = field::<u8>(w, "numReadonlySignedAccounts"@);
        let num_readonly_unsigned_accounts = field::<u8>(w, "numReadonlyUnsignedAccounts"@);
        if num_required_signatures is Some
            && num_readonly_signed_accounts is Some
            && num_readonly_unsigned_accounts is Some {
            Some(
                MessageHeader {
                    num_required_signatures: num_required_signatures->Some_0,
                    num_readonly_signed_accounts: num_readonly_signed_accounts->Some_0,
                    num_readonly_unsigned_accounts: num_readonly_unsigned_accounts->Some_0,
                },
            )
        } else {
            None
        }
    }

    proof fn lemma_round_trip(v: MessageHeader) {
        let w = Self::encoded(v);
        let members = w->Object_0;
        reveal_strlit("numRequiredSignatures");
        reveal_strlit("numReadonlySignedAccounts");
        reveal_strlit("numReadonlyUnsignedAccounts");
        assert("numRequiredSignatures"@.len() == 21);
        assert("numReadonlySignedAccounts"@.len() == 25);
        assert("numReadonlyUnsignedAccounts"@.len() == 27);
        lemma_lookup_first(members, "numRequiredSignatures"@, 0);
        lemma_lookup_first(members, "numReadonlySignedAccounts"@, 1);
        lemma_lookup_first(members, "numReadonlyUnsignedAccounts"@, 2);
        lemma_field_round_trip::<u8>(w, "numRequiredSignatures"@, v.num_required_signatures);
        lemma_field_round_trip::<u8>(
            w,
            "numReadonlySignedAccounts"@,
            v.num_readonly_signed_accounts,
        );
        lemma_field_round_trip::<u8>(
            w,
            "numReadonlyUnsignedAccounts"@,
            v.num_readonly_unsigned_accounts,
        );
    }

    fn to_value(&self) -> (w: Value) {
        let mut members: Vec<(String, Value)> = Vec::new();
        members.push(("numRequiredSignatures".to_owned(), self.num_required_signatures.to_value()));
        members.push(
            ("numReadonlySignedAccounts".to_owned(), self.num_readonly_signed_accounts.to_value()),
        );
        members.push(
            (
                "numReadonlyUnsignedAccounts".to_owned(),
                self.num_readonly_unsigned_accounts.to_value(),
            ),
        );
        let w = Value::Object(members);
        proof {
            lemma_members_view(members@);
            assert(w.deep_view()->Object_0 =~= Self::encoded(self.deep_view())->Object_0);
        }
        w
    }

    fn from_value(w: &Value) -> (r: Option<MessageHeader>) {
        let num_required_signatures = read_field::<u8>(w, "numRequiredSignatures")?;
        let num_readonly_signed_accounts = read_field::<u8>(w, "numReadonlySignedAccounts")?;
        let num_readonly_unsigned_accounts = read_field::<u8>(w, "numReadonlyUnsignedAccounts")?;
        Some(
            MessageHeader {
                num_required_signatures,
                num_readonly_signed_accounts,
                num_readonly_unsigned_accounts,
            },
        )
    }
}

/// A message as it was signed: account keys, and instructions that refer
/// to them by index.
#[derive(Debug, PartialEq)]
pub struct UiRawMessage {
    pub header: MessageHeader,
    pub account_keys: Vec<String>,
    pub recent_blockhash: String,
    pub instructions: Vec<UiCompiledInstruction>,
}

/// The mathematical model of a [`UiRawMessage`].
pub struct UiRawMessageView {
    pub header: MessageHeader,
    pub account_keys: Seq<Seq<char>>,
    pub recent_blockhash: Seq<char>,
    pub instructions: Seq<UiCompiledInstructionView>,
}

impl DeepView for UiRawMessage {
    type V = UiRawMessageView;

    open spec fn deep_view(&self) -> UiRawMessageView {
        UiRawMessageView {
            header: self.header.deep_view(),
            account_keys: self.account_keys.deep_view(),
            recent_blockhash: self.recent_blockhash.deep_view(),
            instructions: self.instructions.deep_view(),
        }
    }
}

impl Clone for UiRawMessage {
    fn clone(&self) -> (copy: UiRawMessage)
        ensures
            copy.deep_view() == self.deep_view(),
    {
        UiRawMessage {
            header: self.header.clone(),
            account_keys: self.account_keys.clone(),
            recent_blockhash: self.recent_blockhash.clone(),
            instructions: self.instructions.clone(),
        }
    }
}

impl Wire for UiRawMessage {
    open spec fn encoded(v: UiRawMessageView) -> ValueView {
        ValueView::Object(
            seq![
                ("header"@, MessageHeader::encoded(v.header)),
                ("accountKeys"@, <Vec<String>>::encoded(v.account_keys)),
                ("recentBlockhash"@, String::encoded(v.recent_blockhash)),
                ("instructions"@, <Vec<UiCompiledInstruction>>::encoded(v.instructions)),
            ],
        )
    }

    open spec fn decoded(w: ValueView) -> Option<UiRawMessageView> {
        let header = field::<MessageHeader>(w, "header"@);
        let account_keys = field::<Vec<String>>(w, "accountKeys"@);
        let recent_blockhash = field::<String>(w, "recentBlockhash"@);
        let instructions = field::<Vec<UiCompiledInstruction>>(w, "instructions"@);
        if header is Some
            && account_keys is Some
            && recent_blockhash is Some
            && instructions is Some {
            Some(
                UiRawMessageView {
                    header: header->Some_0,
                    account_keys: account_keys->Some_0,
                    recent_blockhash: recent_blockhash->Some_0,
                    instructions: instructions->Some_0,
                },
            )
        } else {
            None
        }
    }

    proof fn lemma_round_trip(v: UiRawMessageView) {
        let w = Self::encoded(v);
        let members = w->Object_0;
        reveal_strlit("header");
        reveal_strlit("accountKeys");
        reveal_strlit("recentBlockhash");
        reveal_strlit("instructions");
        assert("header"@.len() == 6);
        assert("accountKeys"@.len() == 11);
        assert("recentBlockhash"@.len() == 15);
        assert("instructions"@.len() == 12);
        lemma_lookup_first(members, "header"@, 0);
        lemma_lookup_first(members, "accountKeys"@, 1);
        lemma_lookup_first(members, "recentBlockhash"@, 2);
        lemma_lookup_first(members, "instructions"@, 3);
        lemma_field_round_trip::<MessageHeader>(w, "header"@, v.header);
        lemma_field_round_trip::<Vec<String>>(w, "accountKeys"@, v.account_keys);
        lemma_field_round_trip::<String>(w, "recentBlockhash"@, v.recent_blockhash);
        lemma_field_round_trip::<Vec<UiCompiledInstruction>>(w, "instructions"@, v.instructions);
    }

    fn to_value(&self) -> (w: Value) {
        let mut members: Vec<(String, Value)> = Vec::new();
        members.push(("header".to_owned(), self.header.to_value()));
        members.push(("accountKeys".to_owned(), self.account_keys.to_value()));
        members.push(("recentBlockhash".to_owned(), self.recent_blockhash.to_value()));
        members.push(("instructions".to_owned(), self.instructions.to_value()));
        let w = Value::Object(members);
        proof {
            lemma_members_view(members@);
            assert(w.deep_view()->Object_0 =~= Self::encoded(self.deep_view())->Object_0);
        }
        w
    }

    fn from_value(w: &Value) -> (r: Option<UiRawMessage>) {
        let header = read_field::<MessageHeader>(w, "header")?;
        let account_keys = read_field::<Vec<String>>(w, "accountKeys")?;
        let recent_blockhash = read_field::<String>(w, "recentBlockhash")?;
        let instructions = read_field::<Vec<UiCompiledInstruction>>(w, "instructions")?;
        Some(UiRawMessage { header, account_keys, recent_blockhash, instructions })
    }
}

/// A message that the node has parsed: each account with its role, and the
/// instructions parsed as far as the node could.
#[derive(Debug, PartialEq)]
pub struct UiParsedMessage {
    pub account_keys: Vec<ParsedAccount>,
    pub recent_blockhash: String,
    pub instructions: Vec<UiInstruction>,
}

/// The mathematical model of a [`UiParsedMessage`].
pub struct UiParsedMessageView {
    pub account_keys: Seq<ParsedAccountView>,
    pub recent_blockhash: Seq<char>,
    pub instructions: Seq<UiInstructionView>,
}

impl DeepView for UiParsedMessage {
    type V = UiParsedMessageView;

    open spec fn deep_view(&self) -> UiParsedMessageView {
        UiParsedMessageView {
            account_keys: self.account_keys.deep_view(),
            recent_blockhash: self.recent_blockhash.deep_view(),
            instructions: self.instructions.deep_view(),
        }
    }
}

impl Clone for UiParsedMessage {
    fn clone(&self) -> (copy: UiParsedMessage)
        ensures
            copy.deep_view() == self.deep_view(),
    {
        UiParsedMessage {
            account_keys: self.account_keys.clone(),
            recent_blockhash: self.recent_blockhash.clone(),
            instructions: self.instructions.clone(),
        }
    }
}

impl Wire for UiParsedMessage {
    open spec fn encoded(v: UiParsedMessageView) -> ValueView {
        ValueView::Object(
            seq![
                ("accountKeys"@, <Vec<ParsedAccount>>::encoded(v.account_keys)),
                ("recentBlockhash"@, String::encoded(v.recent_blockhash)),
                ("instructions"@, <Vec<UiInstruction>>::encoded(v.instructions)),
            ],
        )
    }

    open spec fn decoded(w: ValueView) -> Option<UiParsedMessageView> {
        let account_keys = field::<Vec<ParsedAccount>>(w, "accountKeys"@);
        let recent_blockhash = field::<String>(w, "recentBlockhash"@);
        let instructions = field::<Vec<UiInstruction>>(w, "instructions"@);
        if account_keys is Some && recent_blockhash is Some && instructions is Some {
            Some(
                UiParsedMessageView {
                    account_keys: account_keys->Some_0,
                    recent_blockhash: recent_blockhash->Some_0,
                    instructions: instructions->Some_0,
                },
            )
        } else {
            None
        }
    }

    proof fn lemma_round_trip(v: UiParsedMessageView) {
        let w = Self::encoded(v);
        let members = w->Object_0;
        reveal_strlit("accountKeys");
        reveal_strlit("recentBlockhash");
        reveal_strlit("instructions");
        assert("accountKeys"@.len() == 11);
        assert("recentBlockhash"@.len() == 15);
        assert("instructions"@.len() == 12);
        lemma_lookup_first(members, "accountKeys"@, 0);
        lemma_lookup_first(members, "recentBlockhash"@, 1);
        lemma_lookup_first(members, "instructions"@, 2);
        lemma_field_round_trip::<Vec<ParsedAccount>>(w, "accountKeys"@, v.account_keys);
        lemma_field_round_trip::<String>(w, "recentBlockhash"@, v.recent_blockhash);
        lemma_field_round_trip::<Vec<UiInstruction>>(w, "instructions"@, v.instructions);
    }

    fn to_value(&self) -> (w: Value) {
        let mut members: Vec<(String, Value)> = Vec::new();
        members.push(("accountKeys".to_owned(), self.account_keys.to_value()));
        members.push(("recentBlockhash".to_owned(), self.recent_blockhash.to_value()));
        members.push(("instructions".to_owned(), self.instructions.to_value()));
        let w = Value::Object(members);
        proof {
            lemma_members_view(members@);
            assert(w.deep_view()->Object_0 =~= Self::encoded(self.deep_view())->Object_0);
        }
        w
    }

    fn from_value(w: &Value) -> (r: Option<UiParsedMessage>) {
        let account_keys = read_field::<Vec<ParsedAccount>>(w, "accountKeys")?;
        let recent_blockhash = read_field::<String>(w, "recentBlockhash")?;
        let instructions = read_field::<Vec<UiInstruction>>(w, "instructions")?;
        Some(UiParsedMessage { account_keys, recent_blockhash, instructions })
    }
}

/// The message of a transaction: raw, or parsed by the node.
///
/// The wire form carries no tag. Reading tries the raw shape first and the
/// parsed shape second, and takes the first that fits.
#[derive(Debug, PartialEq)]
pub enum UiMessage {
    Raw(UiRawMessage),
    Parsed(UiParsedMessage),
}

/// The mathematical model of a [`UiMessage`].
pub enum UiMessageView {
    Raw(UiRawMessageView),
    Parsed(UiParsedMessageView),
}

impl DeepView for UiMessage {
    type V = UiMessageView;

    open spec fn deep_view(&self) -> UiMessageView {
        match self {
            UiMessage::Raw(m) => UiMessageView::Raw(m.deep_view()),
            UiMessage::Parsed(m) => UiMessageView::Parsed(m.deep_view()),
        }
    }
}

impl Clone for UiMessage {
    fn clone(&self) -> (copy: UiMessage)
        ensures
            copy.deep_view() == self.deep_view(),
    {
        match self {
            UiMessage::Raw(m) => UiMessage::Raw(m.clone()),
            UiMessage::Parsed(m) => UiMessage::Parsed(m.clone()),
        }
    }
}

/// What is written for a parsed message does not read as a raw one: it has
/// no member `header`.
pub proof fn lemma_parsed_is_not_raw(v: UiParsedMessageView)
    ensures
        UiRawMessage::decoded(UiParsedMessage::encoded(v)) is None,
{
    let members = UiParsedMessage::encoded(v)->Object_0;
    reveal_strlit("header");
    reveal_strlit("accountKeys");
    reveal_strlit("recentBlockhash");
    reveal_strlit("instructions");
    assert("header"@.len() == 6);
    assert("accountKeys"@.len() == 11);
    assert("recentBlockhash"@.len() == 15);
    assert("instructions"@.len() == 12);
    lemma_lookup_absent(members, "header"@);
}

impl Wire for UiMessage {
    open spec fn encoded(v: UiMessageView) -> ValueView {
        match v {
            UiMessageView::Raw(m) => UiRawMessage::encoded(m),
            UiMessageView::Parsed(m) => UiParsedMessage::encoded(m),
        }
    }

    open spec fn decoded(w: ValueView) -> Option<UiMessageView> {
        match UiRawMessage::decoded(w) {
            Some(m) => Some(UiMessageView::Raw(m)),
            None => match UiParsedMessage::decoded(w) {
                Some(m) => Some(UiMessageView::Parsed(m)),
                None => None,
            },
        }
    }

    proof fn lemma_round_trip(v: UiMessageView) {
        match v {
            UiMessageView::Raw(m) => {
                UiRawMessage::lemma_round_trip(m);
            },
            UiMessageView::Parsed(m) => {
                lemma_parsed_is_not_raw(m);
                UiParsedMessage::lemma_round_trip(m);
            },
        }
    }

    fn to_value(&self) -> (w: Value) {
        match self {
            UiMessage::Raw(m) => m.to_value(),
            UiMessage::Parsed(m) => m.to_value(),
        }
    }

    fn from_value(w: &Value) -> (r: Option<UiMessage>) {
        match UiRawMessage::from_value(w) {
            Some(m) => Some(UiMessage::Raw(m)),
            None => match UiParsedMessage::from_value(w) {
                Some(m) => Some(UiMessage::Parsed(m)),
                None => None,
            },
        }
    }
}

} // verus!
