//! The instructions of a message, compiled or parsed.

use crate::json::{
    lemma_lookup_absent, lemma_lookup_first, lemma_members_view, Value, ValueView,
};
use crate::wire::{field, lemma_field_round_trip, read_field, Wire};
use vstd::prelude::*;

verus! {

/// An instruction that the node has parsed in whole: the program's name and
/// address, and what the node's parser made of the instruction, as it came.
#[derive(Debug, PartialEq)]
pub struct ParsedInstruction {
    pub program: String,
    pub program_id: String,
    pub parsed: Value,
}

/// The mathematical model of a [`ParsedInstruction`].
pub struct ParsedInstructionView {
    pub program: Seq<char>,
    pub program_id: Seq<char>,
    pub parsed: ValueView,
}

impl DeepView for ParsedInstruction {
    type V = ParsedInstructionView;

    open spec fn deep_view(&self) -> ParsedInstructionView {
        ParsedInstructionView {
            program: self.program.deep_view(),
            program_id: self.program_id.deep_view(),
            parsed: self.parsed.deep_view(),
        }
    }
}

impl Clone for ParsedInstruction {
    fn clone(&self) -> (copy: ParsedInstruction)
        ensures
            copy.deep_view() == self.deep_view(),
    {
        ParsedInstruction {
            program: self.program.clone(),
            program_id: self.program_id.clone(),
            parsed: self.parsed.clone(),
        }
    }
}

impl Wire for ParsedInstruction {
    open spec fn encoded(v: ParsedInstructionView) -> ValueView {
        ValueView::Object(
            seq![
                ("program"@, String::encoded(v.program)),
                ("programId"@, String::encoded(v.program_id)),
                ("parsed"@, v.parsed),
            ],
        )
    }

    open spec fn decoded(w: ValueView) -> Option<ParsedInstructionView> {
        let program = field::<String>(w, "program"@);
        let program_id = field::<String>(w, "programId"@);
        let parsed = w.member("parsed"@);
        if program is Some && program_id is Some && parsed is Some {
            Some(
                ParsedInstructionView {
                    program: program->Some_0,
                    program_id: program_id->Some_0,
                    parsed: parsed->Some_0,
                },
            )
        } else {
            None
        }
    }

    proof fn lemma_round_trip(v: ParsedInstructionView) {
        let w = Self::encoded(v);
        let members = w->Object_0;
        reveal_strlit("program");
        reveal_strlit("programId");
        reveal_strlit("parsed");
        assert("program"@.len() == 7);
        assert("programId"@.len() == 9);
        assert("parsed"@.len() == 6);
        lemma_lookup_first(members, "program"@, 0);
        lemma_lookup_first(members, "programId"@, 1);
        lemma_lookup_first(members, "parsed"@, 2);
        lemma_field_round_trip::<String>(w, "program"@, v.program);
        lemma_field_round_trip::<String>(w, "programId"@, v.program_id);
    }

    fn to_value(&self) -> (w: Value) {
        let mut members: Vec<(String, Value)> = Vec::new();
        members.push(("program".to_owned(), self.program.to_value()));
        members.push(("programId".to_owned(), self.program_id.to_value()));
        members.push(("parsed".to_owned(), self.parsed.clone()));
        let w = Value::Object(members);
        proof {
            lemma_members_view(members@);
            assert(w.deep_view()->Object_0 =~= Self::encoded(self.deep_view())->Object_0);
        }
        w
    }

    fn from_value(w: &Value) -> (r: Option<ParsedInstruction>) {
        let program = read_field::<String>(w, "program")?;
        let program_id = read_field::<String>(w, "programId")?;
        let parsed = w.get("parsed")?.clone();
        Some(ParsedInstruction { program, program_id, parsed })
    }
}

/// An instruction of which the node has decoded the program's address and the
/// accounts, and left the data as text.
#[derive(Debug, PartialEq)]
pub struct UiPartiallyDecodedInstruction {
    pub program_id: String,
    pub accounts: Vec<String>,
    pub data: String,
}

/// The mathematical model of a [`UiPartiallyDecodedInstruction`].
pub struct UiPartiallyDecodedInstructionView {
    pub program_id: Seq<char>,
    pub accounts: Seq<Seq<char>>,
    pub data: Seq<char>,
}

impl DeepView for UiPartiallyDecodedInstruction {
    type V = UiPartiallyDecodedInstructionView;

    open spec fn deep_view(&self) -> UiPartiallyDecodedInstructionView {
        UiPartiallyDecodedInstructionView {
            program_id: self.program_id.deep_view(),
            accounts: self.accounts.deep_view(),
            data: self.data.deep_view(),
        }
    }
}

impl Clone for UiPartiallyDecodedInstruction {
    fn clone(&self) -> (copy: UiPartiallyDecodedInstruction)
        ensures
            copy.deep_view() == self.deep_view(),
    {
        UiPartiallyDecodedInstruction {
            program_id: self.program_id.clone(),
            accounts: self.accounts.clone(),
            data: self.data.clone(),
        }
    }
}

impl Wire for UiPartiallyDecodedInstruction {
    open spec fn encoded(v: UiPartiallyDecodedInstructionView) -> ValueView {
        ValueView::Object(
            seq![
                ("programId"@, String::encoded(v.program_id)),
                ("accounts"@, <Vec<String>>::encoded(v.accounts)),
                ("data"@, String::encoded(v.data)),
            ],
        )
    }

    open spec fn decoded(w: ValueView) -> Option<UiPartiallyDecodedInstructionView> {
        let program_id = field::<String>(w, "programId"@);
        let accounts = field::<Vec<String>>(w, "accounts"@);
        let data = field::<String>(w, "data"@);
        if program_id is Some && accounts is Some && data is Some {
            Some(
                UiPartiallyDecodedInstructionView {
                    program_id: program_id->Some_0,
                    accounts: accounts->Some_0,
                    data: data->Some_0,
                },
            )
        } else {
            None
        }
    }

    proof fn lemma_round_trip(v: UiPartiallyDecodedInstructionView) {
        let w = Self::encoded(v);
        let members = w->Object_0;
        reveal_strlit("programId");
        reveal_strlit("accounts");
        reveal_strlit("data");
        assert("programId"@.len() == 9);
        assert("accounts"@.len() == 8);
        assert("data"@.len() == 4);
        lemma_lookup_first(members, "programId"@, 0);
        lemma_lookup_first(members, "accounts"@, 1);
        lemma_lookup_first(members, "data"@, 2);
        lemma_field_round_trip::<String>(w, "programId"@, v.program_id);
        lemma_field_round_trip::<Vec<String>>(w, "accounts"@, v.accounts);
        lemma_field_round_trip::<String>(w, "data"@, v.data);
    }

    fn to_value(&self) -> (w: Value) {
        let mut members: Vec<(String, Value)> = Vec::new();
        members.push(("programId".to_owned(), self.program_id.to_value()));
        members.push(("accounts".to_owned(), self.accounts.to_value()));
        members.push(("data".to_owned(), self.data.to_value()));
        let w = Value::Object(members);
        proof {
            lemma_members_view(members@);
            assert(w.deep_view()->Object_0 =~= Self::encoded(self.deep_view())->Object_0);
        }
        w
    }

    fn from_value(w: &Value) -> (r: Option<UiPartiallyDecodedInstruction>) {
        let program_id = read_field::<String>(w, "programId")?;
        let accounts = read_field::<Vec<String>>(w, "accounts")?;
        let data = read_field::<String>(w, "data")?;
        Some(UiPartiallyDecodedInstruction { program_id, accounts, data })
    }
}

/// An instruction as it stands in a raw message: the program and the accounts
/// are indices into the message's account keys.
#[derive(Debug, PartialEq)]
pub struct UiCompiledInstruction {
    pub program_id_index: u8,
    pub accounts: Vec<u8>,
    pub data: String,
}

/// The mathematical model of a [`UiCompiledInstruction`].
pub struct UiCompiledInstructionView {
    pub program_id_index: u8,
    pub accounts: Seq<u8>,
    pub data: Seq<char>,
}

impl DeepView for UiCompiledInstruction {
    type V = UiCompiledInstructionView;

    open spec fn deep_view(&self) -> UiCompiledInstructionView {
        UiCompiledInstructionView {
            program_id_index: self.program_id_index.deep_view(),
            accounts: self.accounts.deep_view(),
            data: self.data.deep_view(),
        }
    }
}

impl Clone for UiCompiledInstruction {
    fn clone(&self) -> (copy: UiCompiledInstruction)
        ensures
            copy.deep_view() == self.deep_view(),
    {
        UiCompiledInstruction {
            program_id_index: self.program_id_index.clone(),
            accounts: self.accounts.clone(),
            data: self.data.clone(),
        }
    }
}

impl Wire for UiCompiledInstruction {
    open spec fn encoded(v: UiCompiledInstructionView) -> ValueView {
        ValueView::Object(
            seq![
                ("programIdIndex"@, u8::encoded(v.program_id_index)),
                ("accounts"@, <Vec<u8>>::encoded(v.accounts)),
                ("data"@, String::encoded(v.data)),
            ],
        )
    }

    open spec fn decoded(w: ValueView) -> Option<UiCompiledInstructionView> {
        let program_id_index = field::<u8>(w, "programIdIndex"@);
        let accounts = field::<Vec<u8>>(w, "accounts"@);
        let data = field::<String>(w, "data"@);
        if program_id_index is Some && accounts is Some && data is Some {
            Some(
                UiCompiledInstructionView {
                    program_id_index: program_id_index->Some_0,
                    accounts: accounts->Some_0,
                    data: data->Some_0,
                },
            )
        } else {
            None
        }
    }

    proof fn lemma_round_trip(v: UiCompiledInstructionView) {
        let w = Self::encoded(v);
        let members = w->Object_0;
        reveal_strlit("programIdIndex");
        reveal_strlit("accounts");
        reveal_strlit("data");
        assert("programIdIndex"@.len() == 14);
        assert("accounts"@.len() == 8);
        assert("data"@.len() == 4);
        lemma_lookup_first(members, "programIdIndex"@, 0);
        lemma_lookup_first(members, "accounts"@, 1);
        lemma_lookup_first(members, "data"@, 2);
        lemma_field_round_trip::<u8>(w, "programIdIndex"@, v.program_id_index);
        lemma_field_round_trip::<Vec<u8>>(w, "accounts"@, v.accounts);
        lemma_field_round_trip::<String>(w, "data"@, v.data);
    }

    fn to_value(&self) -> (w: Value) {
        let mut members: Vec<(String, Value)> = Vec::new();
        members.push(("programIdIndex".to_owned(), self.program_id_index.to_value()));
        members.push(("accounts".to_owned(), self.accounts.to_value()));
        members.push(("data".to_owned(), self.data.to_value()));
        let w = Value::Object(members);
        proof {
            lemma_members_view(members@);
            assert(w.deep_view()->Object_0 =~= Self::encoded(self.deep_view())->Object_0);
        }
        w
    }

    fn from_value(w: &Value) -> (r: Option<UiCompiledInstruction>) {
        let program_id_index = read_field::<u8>(w, "programIdIndex")?;
        let accounts = read_field::<Vec<u8>>(w, "accounts")?;
        let data = read_field::<String>(w, "data")?;
        Some(UiCompiledInstruction { program_id_index, accounts, data })
    }
}

/// A parsed instruction: parsed in whole, or in part.
///
/// The wire form carries no tag. Reading tries the shapes in the order in
/// which the cases are declared and takes the first that fits.
#[derive(Debug, PartialEq)]
pub enum UiParsedInstruction {
    Parsed(ParsedInstruction),
    PartiallyDecoded(UiPartiallyDecodedInstruction),
}

/// The mathematical model of a [`UiParsedInstruction`].
pub enum UiParsedInstructionView {
    Parsed(ParsedInstructionView),
    PartiallyDecoded(UiPartiallyDecodedInstructionView),
}

impl DeepView for UiParsedInstruction {
    type V = UiParsedInstructionView;

    open spec fn deep_view(&self) -> UiParsedInstructionView {
        match self {
            UiParsedInstruction::Parsed(i) => UiParsedInstructionView::Parsed(i.deep_view()),
            UiParsedInstruction::PartiallyDecoded(i) => UiParsedInstructionView::PartiallyDecoded(
                i.deep_view(),
            ),
        }
    }
}

impl Clone for UiParsedInstruction {
    fn clone(&self) -> (copy: UiParsedInstruction)
        ensures
            copy.deep_view() == self.deep_view(),
    {
        match self {
            UiParsedInstruction::Parsed(i) => UiParsedInstruction::Parsed(i.clone()),
            UiParsedInstruction::PartiallyDecoded(i) => UiParsedInstruction::PartiallyDecoded(
                i.clone(),
            ),
        }
    }
}

/// What is written for a partially decoded instruction does not read as a
/// parsed one: it has no member `program`.
pub proof fn lemma_partially_decoded_is_not_parsed(v: UiPartiallyDecodedInstructionView)
    ensures
        ParsedInstruction::decoded(UiPartiallyDecodedInstruction::encoded(v)) is None,
{
    let members = UiPartiallyDecodedInstruction::encoded(v)->Object_0;
    reveal_strlit("program");
    reveal_strlit("programId");
    reveal_strlit("accounts");
    reveal_strlit("data");
    assert("program"@.len() == 7);
    assert("programId"@.len() == 9);
    assert("accounts"@.len() == 8);
    assert("data"@.len() == 4);
    lemma_lookup_absent(members, "program"@);
}

impl Wire for UiParsedInstruction {
    open spec fn encoded(v: UiParsedInstructionView) -> ValueView {
        match v {
            UiParsedInstructionView::Parsed(i) => ParsedInstruction::encoded(i),
            UiParsedInstructionView::PartiallyDecoded(i) => UiPartiallyDecodedInstruction::encoded(
                i,
            ),
        }
    }

    open spec fn decoded(w: ValueView) -> Option<UiParsedInstructionView> {
        match ParsedInstruction::decoded(w) {
            Some(i) => Some(UiParsedInstructionView::Parsed(i)),
            None => match UiPartiallyDecodedInstruction::decoded(w) {
                Some(i) => Some(UiParsedInstructionView::PartiallyDecoded(i)),
                None => None,
            },
        }
    }

    proof fn lemma_round_trip(v: UiParsedInstructionView) {
        match v {
            UiParsedInstructionView::Parsed(i) => {
                ParsedInstruction::lemma_round_trip(i);
            },
            UiParsedInstructionView::PartiallyDecoded(i) => {
                lemma_partially_decoded_is_not_parsed(i);
                UiPartiallyDecodedInstruction::lemma_round_trip(i);
            },
        }
    }

    fn to_value(&self) -> (w: Value) {
        match self {
            UiParsedInstruction::Parsed(i) => i.to_value(),
            UiParsedInstruction::PartiallyDecoded(i) => i.to_value(),
        }
    }

    fn from_value(w: &Value) -> (r: Option<UiParsedInstruction>) {
        match ParsedInstruction::from_value(w) {
            Some(i) => Some(UiParsedInstruction::Parsed(i)),
            None => match UiPartiallyDecodedInstruction::from_value(w) {
                Some(i) => Some(UiParsedInstruction::PartiallyDecoded(i)),
                None => None,
            },
        }
    }
}

/// An instruction as the node writes it: compiled, or parsed.
///
/// The wire form carries no tag. Reading tries the shapes in the order in
/// which the cases are declared and takes the first that fits.
#[derive(Debug, PartialEq)]
pub enum UiInstruction {
    Compiled(UiCompiledInstruction),
    Parsed(UiParsedInstruction),
}

/// The mathematical model of a [`UiInstruction`].
pub enum UiInstructionView {
    Compiled(UiCompiledInstructionView),
    Parsed(UiParsedInstructionView),
}

impl DeepView for UiInstruction {
    type V = UiInstructionView;

    open spec fn deep_view(&self) -> UiInstructionView {
        match self {
            UiInstruction::Compiled(i) => UiInstructionView::Compiled(i.deep_view()),
            UiInstruction::Parsed(i) => UiInstructionView::Parsed(i.deep_view()),
        }
    }
}

impl Clone for UiInstruction {
    fn clone(&self) -> (copy: UiInstruction)
        ensures
            copy.deep_view() == self.deep_view(),
    {
        match self {
            UiInstruction::Compiled(i) => UiInstruction::Compiled(i.clone()),
            UiInstruction::Parsed(i) => UiInstruction::Parsed(i.clone()),
        }
    }
}

/// What is written for a parsed instruction does not read as a compiled one:
/// it has no member `programIdIndex`.
pub proof fn lemma_parsed_is_not_compiled(v: UiParsedInstructionView)
    ensures
        UiCompiledInstruction::decoded(UiParsedInstruction::encoded(v)) is None,
{
    let members = UiParsedInstruction::encoded(v)->Object_0;
    reveal_strlit("programIdIndex");
    reveal_strlit("program");
    reveal_strlit("programId");
    reveal_strlit("parsed");
    reveal_strlit("accounts");
    reveal_strlit("data");
    assert("programIdIndex"@.len() == 14);
    assert("program"@.len() == 7);
    assert("programId"@.len() == 9);
    assert("parsed"@.len() == 6);
    assert("accounts"@.len() == 8);
    assert("data"@.len() == 4);
    lemma_lookup_absent(members, "programIdIndex"@);
}

impl Wire for UiInstruction {
    open spec fn encoded(v: UiInstructionView) -> ValueView {
        match v {
            UiInstructionView::Compiled(i) => UiCompiledInstruction::encoded(i),
            UiInstructionView::Parsed(i) => UiParsedInstruction::encoded(i),
        }
    }

    open spec fn decoded(w: ValueView) -> Option<UiInstructionView> {
        match UiCompiledInstruction::decoded(w) {
            Some(i) => Some(UiInstructionView::Compiled(i)),
            None => match UiParsedInstruction::decoded(w) {
                Some(i) => Some(UiInstructionView::Parsed(i)),
                None => None,
            },
        }
    }

    proof fn lemma_round_trip(v: UiInstructionView) {
        match v {
            UiInstructionView::Compiled(i) => {
                UiCompiledInstruction::lemma_round_trip(i);
            },
            UiInstructionView::Parsed(i) => {
                lemma_parsed_is_not_compiled(i);
                UiParsedInstruction::lemma_round_trip(i);
            },
        }
    }

    fn to_value(&self) -> (w: Value) {
        match self {
            UiInstruction::Compiled(i) => i.to_value(),
            UiInstruction::Parsed(i) => i.to_value(),
        }
    }

    fn from_value(w: &Value) -> (r: Option<UiInstruction>) {
        match UiCompiledInstruction::from_value(w) {
            Some(i) => Some(UiInstruction::Compiled(i)),
            None => match UiParsedInstruction::from_value(w) {
                Some(i) => Some(UiInstruction::Parsed(i)),
                None => None,
            },
        }
    }
}

/// The instructions that one instruction of a transaction invoked in turn.
#[derive(Debug, PartialEq)]
pub struct UiInnerInstructions {
    /// The index of the invoking instruction in the transaction.
    pub index: u8,
    pub instructions: Vec<UiInstruction>,
}

/// The mathematical model of a [`UiInnerInstructions`].
pub struct UiInnerInstructionsView {
    pub index: u8,
    pub instructions: Seq<UiInstructionView>,
}

impl DeepView for UiInnerInstructions {
    type V = UiInnerInstructionsView;

    open spec fn deep_view(&self) -> UiInnerInstructionsView {
        UiInnerInstructionsView {
            index: self.index.deep_view(),
            instructions: self.instructions.deep_view(),
        }
    }
}

impl Clone for UiInnerInstructions {
    fn clone(&self) -> (copy: UiInnerInstructions)
        ensures
            copy.deep_view() == self.deep_view(),
    {
        UiInnerInstructions {
            index: self.index.clone(),
            instructions: self.instructions.clone(),
        }
    }
}

impl Wire for UiInnerInstructions {
    open spec fn encoded(v: UiInnerInstructionsView) -> ValueView {
        ValueView::Object(
            seq![
                ("index"@, u8::encoded(v.index)),
                ("instructions"@, <Vec<UiInstruction>>::encoded(v.instructions)),
            ],
        )
    }

    open spec fn decoded(w: ValueView) -> Option<UiInnerInstructionsView> {
        let index = field::<u8>(w, "index"@);
        let instructions = field::<Vec<UiInstruction>>(w, "instructions"@);
        if index is Some && instructions is Some {
            Some(
                UiInnerInstructionsView {
                    index: index->Some_0,
                    instructions: instructions->Some_0,
                },
            )
        } else {
            None
        }
    }

    proof fn lemma_round_trip(v: UiInnerInstructionsView) {
        let w = Self::encoded(v);
        let members = w->Object_0;
        reveal_strlit("index");
        reveal_strlit("instructions");
        assert("index"@.len() == 5);
        assert("instructions"@.len() == 12);
        lemma_lookup_first(members, "index"@, 0);
        lemma_lookup_first(members, "instructions"@, 1);
        lemma_field_round_trip::<u8>(w, "index"@, v.index);
        lemma_field_round_trip::<Vec<UiInstruction>>(w, "instructions"@, v.instructions);
    }

    fn to_value(&self) -> (w: Value) {
        let mut members: Vec<(String, Value)> = Vec::new();
        members.push(("index".to_owned(), self.index.to_value()));
        members.push(("instructions".to_owned(), self.instructions.to_value()));
        let w = Value::Object(members);
        proof {
            lemma_members_view(members@);
            assert(w.deep_view()->Object_0 =~= Self::encoded(self.deep_view())->Object_0);
        }
        w
    }

    fn from_value(w: &Value) -> (r: Option<UiInnerInstructions>) {
        let index = read_field::<u8>(w, "index")?;
        let instructions = read_field::<Vec<UiInstruction>>(w, "instructions")?;
        Some(UiInnerInstructions { index, instructions })
    }
}

} // verus!
