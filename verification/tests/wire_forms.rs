use solprobe::solana_blocks::confirmed_blocks::{BlockResponse, EncodedConfirmedBlock};
use solprobe::solana_blocks::encoded_transactions::{
    EncodedTransaction, EncodedTransactionWithStatusMeta, ParsedAccount, Reward, RewardType,
    UiTokenAmount, UiTransaction, UiTransactionEncoding, UiTransactionStatusMeta,
    UiTransactionTokenBalance,
};
use solprobe::solana_blocks::instructions::{
    ParsedInstruction, UiCompiledInstruction, UiInnerInstructions, UiInstruction,
    UiParsedInstruction, UiPartiallyDecodedInstruction,
};
use solprobe::solana_blocks::messages::{MessageHeader, UiMessage, UiParsedMessage, UiRawMessage};
use solprobe::{
    ConfirmedBlock, InstructionError, Message, Metadata, Number, SolProbeError, TokenAmount,
    TokenBalance, Transaction, TransactionError, Value, Wire,
};

fn all_instruction_errors() -> Vec<InstructionError> {
    vec![
        InstructionError::GenericError,
        InstructionError::InvalidArgument,
        InstructionError::InvalidInstructionData,
        InstructionError::InvalidAccountData,
        InstructionError::AccountDataTooSmall,
        InstructionError::InsufficientFunds,
        InstructionError::IncorrectProgramId,
        InstructionError::MissingRequiredSignature,
        InstructionError::AccountAlreadyInitialized,
        InstructionError::UninitializedAccount,
        InstructionError::UnbalancedInstruction,
        InstructionError::ModifiedProgramId,
        InstructionError::ExternalAccountLamportSpend,
        InstructionError::ExternalAccountDataModified,
        InstructionError::ReadonlyLamportChange,
        InstructionError::ReadonlyDataModified,
        InstructionError::DuplicateAccountIndex,
        InstructionError::ExecutableModified,
        InstructionError::RentEpochModified,
        InstructionError::NotEnoughAccountKeys,
        InstructionError::AccountDataSizeChanged,
        InstructionError::AccountNotExecutable,
        InstructionError::AccountBorrowFailed,
        InstructionError::AccountBorrowOutstanding,
        InstructionError::DuplicateAccountOutOfSync,
        InstructionError::Custom(0),
        InstructionError::Custom(7),
        InstructionError::Custom(u32::MAX),
        InstructionError::InvalidError,
        InstructionError::ExecutableDataModified,
        InstructionError::ExecutableLamportChange,
        InstructionError::ExecutableAccountNotRentExempt,
        InstructionError::UnsupportedProgramId,
        InstructionError::CallDepth,
        InstructionError::MissingAccount,
        InstructionError::ReentrancyNotAllowed,
        InstructionError::MaxSeedLengthExceeded,
        InstructionError::InvalidSeeds,
        InstructionError::InvalidRealloc,
        InstructionError::ComputationalBudgetExceeded,
        InstructionError::PrivilegeEscalation,
        InstructionError::ProgramEnvironmentSetupFailure,
        InstructionError::ProgramFailedToComplete,
        InstructionError::ProgramFailedToCompile,
        InstructionError::Immutable,
        InstructionError::IncorrectAuthority,
        InstructionError::BorshIoError(String::new()),
        InstructionError::BorshIoError("Custom".to_string()),
        InstructionError::BorshIoError("caf\u{e9} \u{1f600}".to_string()),
        InstructionError::AccountNotRentExempt,
        InstructionError::InvalidAccountOwner,
        InstructionError::ArithmeticOverflow,
        InstructionError::UnsupportedSysvar,
        InstructionError::IllegalOwner,
    ]
}

fn all_transaction_errors() -> Vec<TransactionError> {
    let mut all = vec![
        TransactionError::AccountInUse,
        TransactionError::AccountLoadedTwice,
        TransactionError::AccountNotFound,
        TransactionError::ProgramAccountNotFound,
        TransactionError::InsufficientFundsForFee,
        TransactionError::InvalidAccountForFee,
        TransactionError::AlreadyProcessed,
        TransactionError::BlockhashNotFound,
        TransactionError::CallChainTooDeep,
        TransactionError::MissingSignatureForFee,
        TransactionError::InvalidAccountIndex,
        TransactionError::SignatureFailure,
        TransactionError::InvalidProgramForExecution,
        TransactionError::SanitizeFailure,
        TransactionError::ClusterMaintenance,
        TransactionError::AccountBorrowOutstanding,
        TransactionError::WouldExceedMaxBlockCostLimit,
        TransactionError::UnsupportedVersion,
        TransactionError::InvalidWritableAccount,
    ];
    for (i, error) in all_instruction_errors().into_iter().enumerate() {
        all.push(TransactionError::InstructionError(i as u8, error));
    }
    all.push(TransactionError::InstructionError(255, InstructionError::Custom(7)));
    all
}

fn strings(items: &[&str]) -> Vec<String> {
    items.iter().map(|s| s.to_string()).collect()
}

fn text(s: &str) -> Value {
    Value::String(s.to_string())
}

fn number(n: u64) -> Value {
    Value::Number(Number::PosInt(n))
}

fn object(members: Vec<(&str, Value)>) -> Value {
    Value::Object(members.into_iter().map(|(k, v)| (k.to_string(), v)).collect())
}

fn raw_message() -> UiRawMessage {
    UiRawMessage {
        header: MessageHeader {
            num_required_signatures: 1,
            num_readonly_signed_accounts: 0,
            num_readonly_unsigned_accounts: 1,
        },
        account_keys: strings(&["A", "B"]),
        recent_blockhash: "recent".to_string(),
        instructions: vec![UiCompiledInstruction {
            program_id_index: 1,
            accounts: vec![0, 1, 255],
            data: "3Bxs".to_string(),
        }],
    }
}

fn all_instructions() -> Vec<UiInstruction> {
    vec![
        UiInstruction::Compiled(UiCompiledInstruction {
            program_id_index: 0,
            accounts: vec![],
            data: String::new(),
        }),
        UiInstruction::Parsed(UiParsedInstruction::Parsed(ParsedInstruction {
            program: "system".to_string(),
            program_id: "11111111111111111111111111111111".to_string(),
            parsed: object(vec![
                ("type", text("transfer")),
                ("info", object(vec![("lamports", number(5)), ("flag", Value::Bool(true))])),
                ("list", Value::Array(vec![Value::Null, Value::Number(Number::NegInt(-3))])),
            ]),
        })),
        UiInstruction::Parsed(UiParsedInstruction::Parsed(ParsedInstruction {
            program: "p".to_string(),
            program_id: "id".to_string(),
            parsed: Value::Null,
        })),
        UiInstruction::Parsed(UiParsedInstruction::PartiallyDecoded(
            UiPartiallyDecodedInstruction {
                program_id: "P".to_string(),
                accounts: strings(&["A", "B"]),
                data: "d".to_string(),
            },
        )),
    ]
}

fn parsed_message() -> UiParsedMessage {
    UiParsedMessage {
        account_keys: vec![
            ParsedAccount { pubkey: "A".to_string(), writable: true, signer: true },
            ParsedAccount { pubkey: "B".to_string(), writable: false, signer: false },
        ],
        recent_blockhash: "recent".to_string(),
        instructions: all_instructions(),
    }
}

fn all_encoded_transactions() -> Vec<EncodedTransaction> {
    vec![
        EncodedTransaction::LegacyBinary("base58str".to_string()),
        EncodedTransaction::LegacyBinary(String::new()),
        EncodedTransaction::Binary("AAAA".to_string(), UiTransactionEncoding::Binary),
        EncodedTransaction::Binary("AAAA".to_string(), UiTransactionEncoding::Base64),
        EncodedTransaction::Binary("AAAA".to_string(), UiTransactionEncoding::Base58),
        EncodedTransaction::Binary("AAAA".to_string(), UiTransactionEncoding::Json),
        EncodedTransaction::Binary("AAAA".to_string(), UiTransactionEncoding::JsonParsed),
        EncodedTransaction::Json(UiTransaction {
            signatures: strings(&["s1", "s2"]),
            message: UiMessage::Raw(raw_message()),
        }),
        EncodedTransaction::Json(UiTransaction {
            signatures: vec![],
            message: UiMessage::Parsed(parsed_message()),
        }),
    ]
}

fn full_meta() -> UiTransactionStatusMeta {
    UiTransactionStatusMeta {
        err: Some(TransactionError::InstructionError(2, InstructionError::Custom(7))),
        status: Err(TransactionError::InstructionError(2, InstructionError::Custom(7))),
        fee: u64::MAX,
        pre_balances: vec![0, 1, u64::MAX],
        post_balances: vec![],
        inner_instructions: Some(vec![UiInnerInstructions {
            index: 3,
            instructions: all_instructions(),
        }]),
        log_messages: Some(strings(&["one", "two"])),
        pre_token_balances: Some(vec![UiTransactionTokenBalance {
            account_index: 4,
            mint: "mint".to_string(),
            ui_token_amount: UiTokenAmount {
                ui_amount: Some(Number::Float(0.25f64.to_bits())),
                decimals: 2,
                amount: "25".to_string(),
                ui_amount_string: "0.25".to_string(),
            },
        }]),
        post_token_balances: Some(vec![]),
        rewards: Some(vec![Reward {
            pubkey: "P".to_string(),
            lamports: i64::MIN,
            post_balance: 1,
            reward_type: Some(RewardType::Fee),
            commission: Some(0),
        }]),
    }
}

fn bare_meta() -> UiTransactionStatusMeta {
    UiTransactionStatusMeta {
        err: None,
        status: Ok(()),
        fee: 0,
        pre_balances: vec![],
        post_balances: vec![],
        inner_instructions: None,
        log_messages: None,
        pre_token_balances: None,
        post_token_balances: None,
        rewards: None,
    }
}

#[test]
fn every_instruction_error_round_trips() {
    for error in all_instruction_errors() {
        assert_eq!(InstructionError::from_value(&error.to_value()), Some(error));
    }
}

#[test]
fn every_transaction_error_round_trips() {
    for error in all_transaction_errors() {
        assert_eq!(TransactionError::from_value(&error.to_value()), Some(error));
    }
}

#[test]
fn every_reward_type_round_trips() {
    for kind in [RewardType::Fee, RewardType::Rent, RewardType::Staking, RewardType::Voting] {
        assert_eq!(RewardType::from_value(&kind.to_value()), Some(kind));
    }
}

#[test]
fn every_encoded_transaction_round_trips() {
    for tx in all_encoded_transactions() {
        assert_eq!(EncodedTransaction::from_value(&tx.to_value()), Some(tx));
    }
}

#[test]
fn every_message_round_trips() {
    for message in [UiMessage::Raw(raw_message()), UiMessage::Parsed(parsed_message())] {
        assert_eq!(UiMessage::from_value(&message.to_value()), Some(message));
    }
}

#[test]
fn every_instruction_round_trips() {
    for instruction in all_instructions() {
        assert_eq!(UiInstruction::from_value(&instruction.to_value()), Some(instruction));
    }
}

#[test]
fn metadata_round_trips() {
    for meta in [full_meta(), bare_meta()] {
        assert_eq!(UiTransactionStatusMeta::from_value(&meta.to_value()), Some(meta));
    }
}

#[test]
fn block_response_round_trips() {
    let transactions = all_encoded_transactions()
        .into_iter()
        .enumerate()
        .map(|(i, transaction)| EncodedTransactionWithStatusMeta {
            transaction,
            meta: if i % 2 == 0 { Some(full_meta()) } else { None },
        })
        .collect();
    let response = BlockResponse {
        jsonrpc: "2.0".to_string(),
        result: EncodedConfirmedBlock {
            previous_blockhash: "prev".to_string(),
            blockhash: "hash".to_string(),
            parent_slot: u64::MAX,
            transactions,
            rewards: vec![],
            block_time: Some(-1),
            block_height: None,
        },
    };
    assert_eq!(BlockResponse::from_value(&response.to_value()), Some(response));
}

#[test]
fn simplified_block_round_trips() {
    let wire = EncodedConfirmedBlock {
        previous_blockhash: "prev".to_string(),
        blockhash: "hash".to_string(),
        parent_slot: 1,
        transactions: vec![EncodedTransactionWithStatusMeta {
            transaction: EncodedTransaction::Json(UiTransaction {
                signatures: strings(&["s"]),
                message: UiMessage::Raw(raw_message()),
            }),
            meta: Some(full_meta()),
        }],
        rewards: vec![],
        block_time: Some(5),
        block_height: Some(6),
    };
    let mut block = ConfirmedBlock::new();
    assert!(block.decode(&wire).is_ok());
    assert_eq!(ConfirmedBlock::from_value(&block.to_value()), Some(block));
}

#[test]
fn simplified_block_is_written_in_camel_case() {
    let tx = Transaction {
        signatures: strings(&["s"]),
        message: Message {
            account_keys: strings(&["A"]),
            num_required_signatures: 1,
            num_readonly_signed_accounts: 2,
            num_readonly_unsigned_accounts: 3,
        },
        metadata: None,
    };
    assert_eq!(
        tx.to_value(),
        object(vec![
            ("signatures", Value::Array(vec![text("s")])),
            (
                "message",
                object(vec![
                    ("accountKeys", Value::Array(vec![text("A")])),
                    ("numRequiredSignatures", number(1)),
                    ("numReadonlySignedAccounts", number(2)),
                    ("numReadonlyUnsignedAccounts", number(3)),
                ])
            ),
            ("metadata", Value::Null),
        ])
    );
    let balance = TokenBalance {
        account_index: 1,
        mint: "m".to_string(),
        token_amount: TokenAmount {
            amount: None,
            decimals: 9,
            string_amount: "1".to_string(),
            string_decimals: "0.000000001".to_string(),
        },
    };
    assert_eq!(
        balance.to_value(),
        object(vec![
            ("accountIndex", number(1)),
            ("mint", text("m")),
            (
                "tokenAmount",
                object(vec![
                    ("amount", Value::Null),
                    ("decimals", number(9)),
                    ("stringAmount", text("1")),
                    ("stringDecimals", text("0.000000001")),
                ])
            ),
        ])
    );
    let metadata = Metadata::from(bare_meta());
    assert_eq!(Metadata::from_value(&metadata.to_value()), Some(metadata));
}

#[test]
fn units_are_written_as_strings_and_payloads_as_objects() {
    assert_eq!(TransactionError::AccountInUse.to_value(), text("AccountInUse"));
    assert_eq!(InstructionError::IllegalOwner.to_value(), text("IllegalOwner"));
    assert_eq!(InstructionError::Custom(7).to_value(), object(vec![("Custom", number(7))]));
    assert_eq!(
        InstructionError::BorshIoError("eof".to_string()).to_value(),
        object(vec![("BorshIoError", text("eof"))])
    );
    assert_eq!(
        TransactionError::InstructionError(2, InstructionError::Custom(7)).to_value(),
        object(vec![(
            "InstructionError",
            Value::Array(vec![number(2), object(vec![("Custom", number(7))])])
        )])
    );
}

#[test]
fn names_of_one_taxonomy_are_not_read_as_the_other() {
    // Both taxonomies have a case of this name.
    assert_eq!(
        TransactionError::from_value(&text("AccountBorrowOutstanding")),
        Some(TransactionError::AccountBorrowOutstanding)
    );
    assert_eq!(
        InstructionError::from_value(&text("AccountBorrowOutstanding")),
        Some(InstructionError::AccountBorrowOutstanding)
    );
    assert_eq!(InstructionError::from_value(&text("AccountInUse")), None);
    assert_eq!(TransactionError::from_value(&text("GenericError")), None);
    assert_eq!(InstructionError::from_value(&text("Custom")), None);
    assert_eq!(InstructionError::from_value(&text("genericError")), None);
    assert_eq!(InstructionError::from_value(&text("GenericError ")), None);
    assert_eq!(InstructionError::from_value(&text("")), None);
    assert_eq!(
        InstructionError::from_value(&object(vec![("GenericError", Value::Null)])),
        None
    );
    assert_eq!(InstructionError::from_value(&object(vec![("Custom", text("7"))])), None);
    assert_eq!(InstructionError::from_value(&object(vec![("BorshIoError", number(7))])), None);
}

#[test]
fn tags_name_the_cases() {
    assert_eq!(InstructionError::Custom(1).tag(), "Custom");
    assert_eq!(InstructionError::BorshIoError("x".to_string()).tag(), "BorshIoError");
    assert_eq!(InstructionError::CallDepth.tag(), "CallDepth");
    assert_eq!(
        TransactionError::InstructionError(0, InstructionError::CallDepth).tag(),
        "InstructionError"
    );
    assert_eq!(RewardType::Staking.tag(), "Staking");
    assert_eq!(UiTransactionEncoding::JsonParsed.tag(), "jsonParsed");
    assert_eq!(SolProbeError::UnsupportedEncoding.tag(), "unsupportedEncoding");
    assert_eq!(InstructionError::from_unit_tag("Immutable"), Some(InstructionError::Immutable));
    assert_eq!(InstructionError::from_unit_tag("Custom"), None);
    assert_eq!(TransactionError::from_unit_tag("InstructionError"), None);
    assert_eq!(RewardType::from_tag("Rent"), Some(RewardType::Rent));
    assert_eq!(RewardType::from_tag("rent"), None);
}

#[test]
fn members_that_are_not_named_are_passed_over() {
    let header = object(vec![
        ("extra", Value::Bool(true)),
        ("numRequiredSignatures", number(1)),
        ("numReadonlySignedAccounts", number(2)),
        ("numReadonlyUnsignedAccounts", number(3)),
    ]);
    assert_eq!(
        MessageHeader::from_value(&header),
        Some(MessageHeader {
            num_required_signatures: 1,
            num_readonly_signed_accounts: 2,
            num_readonly_unsigned_accounts: 3,
        })
    );
}

#[test]
fn a_member_written_twice_counts_the_first_time() {
    let header = object(vec![
        ("numRequiredSignatures", number(1)),
        ("numRequiredSignatures", number(9)),
        ("numReadonlySignedAccounts", number(2)),
        ("numReadonlyUnsignedAccounts", number(3)),
    ]);
    assert_eq!(MessageHeader::from_value(&header).unwrap().num_required_signatures, 1);
}

#[test]
fn numbers_are_held_to_their_width() {
    assert_eq!(u8::from_value(&number(255)), Some(255));
    assert_eq!(u8::from_value(&number(256)), None);
    assert_eq!(u32::from_value(&number(4294967295)), Some(u32::MAX));
    assert_eq!(u32::from_value(&number(4294967296)), None);
    assert_eq!(u64::from_value(&number(u64::MAX)), Some(u64::MAX));
    assert_eq!(u64::from_value(&Value::Number(Number::NegInt(-1))), None);
    assert_eq!(i64::from_value(&number(i64::MAX as u64)), Some(i64::MAX));
    assert_eq!(i64::from_value(&number(i64::MAX as u64 + 1)), None);
    assert_eq!(i64::from_value(&Value::Number(Number::NegInt(i64::MIN))), Some(i64::MIN));
    assert_eq!(u8::from_value(&Value::Number(Number::Float(1.0f64.to_bits()))), None);
    assert_eq!(u8::from_value(&text("1")), None);
    assert_eq!(5i64.to_value(), number(5));
    assert_eq!((-5i64).to_value(), Value::Number(Number::NegInt(-5)));
    assert_eq!(0i64.to_value(), number(0));
    assert_eq!(
        Number::from_value(&Value::Number(Number::Float(7))),
        Some(Number::Float(7))
    );
    assert_eq!(bool::from_value(&Value::Bool(true)), Some(true));
    assert_eq!(bool::from_value(&number(1)), None);
    assert_eq!(String::from_value(&text("s")), Some("s".to_string()));
    assert_eq!(String::from_value(&Value::Null), None);
}

#[test]
fn lists_are_read_item_by_item() {
    let list = Value::Array(vec![number(1), number(2), number(3)]);
    assert_eq!(Vec::<u8>::from_value(&list), Some(vec![1, 2, 3]));
    assert_eq!(vec![1u8, 2, 3].to_value(), list);
    let broken = Value::Array(vec![number(1), number(256), number(3)]);
    assert_eq!(Vec::<u8>::from_value(&broken), None);
    assert_eq!(Vec::<u8>::from_value(&Value::Array(vec![])), Some(vec![]));
    assert_eq!(Vec::<u8>::from_value(&number(1)), None);
    let nested = vec![vec!["a".to_string()], vec![]];
    assert_eq!(Vec::<Vec<String>>::from_value(&nested.to_value()), Some(nested));
}
