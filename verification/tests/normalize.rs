use solprobe::solana_blocks::confirmed_blocks::EncodedConfirmedBlock;
use solprobe::solana_blocks::encoded_transactions::{
    EncodedTransaction, EncodedTransactionWithStatusMeta, ParsedAccount, UiTokenAmount,
    UiTransaction, UiTransactionEncoding, UiTransactionStatusMeta, UiTransactionTokenBalance,
};
use solprobe::solana_blocks::messages::{MessageHeader, UiMessage, UiParsedMessage, UiRawMessage};
use solprobe::{
    ConfirmedBlock, InstructionError, Message, Metadata, Number, Reward, RewardType,
    SolProbeError, TokenAmount, TokenBalance, Transaction, TransactionError,
};

fn strings(items: &[&str]) -> Vec<String> {
    items.iter().map(|s| s.to_string()).collect()
}

fn raw_message(keys: &[&str], header: (u8, u8, u8)) -> UiMessage {
    UiMessage::Raw(UiRawMessage {
        header: MessageHeader {
            num_required_signatures: header.0,
            num_readonly_signed_accounts: header.1,
            num_readonly_unsigned_accounts: header.2,
        },
        account_keys: strings(keys),
        recent_blockhash: "recent".to_string(),
        instructions: vec![],
    })
}

fn parsed_message() -> UiMessage {
    UiMessage::Parsed(UiParsedMessage {
        account_keys: vec![ParsedAccount {
            pubkey: "A".to_string(),
            writable: true,
            signer: true,
        }],
        recent_blockhash: "recent".to_string(),
        instructions: vec![],
    })
}

fn json_tx(signature: &str, message: UiMessage) -> EncodedTransactionWithStatusMeta {
    EncodedTransactionWithStatusMeta {
        transaction: EncodedTransaction::Json(UiTransaction {
            signatures: strings(&[signature]),
            message,
        }),
        meta: None,
    }
}

fn supported_tx(signature: &str) -> EncodedTransactionWithStatusMeta {
    json_tx(signature, raw_message(&["A", "B"], (1, 0, 1)))
}

fn legacy_tx() -> EncodedTransactionWithStatusMeta {
    EncodedTransactionWithStatusMeta {
        transaction: EncodedTransaction::LegacyBinary("base58str".to_string()),
        meta: None,
    }
}

fn binary_tx(encoding: UiTransactionEncoding) -> EncodedTransactionWithStatusMeta {
    EncodedTransactionWithStatusMeta {
        transaction: EncodedTransaction::Binary("AAAA".to_string(), encoding),
        meta: None,
    }
}

fn block_of(transactions: Vec<EncodedTransactionWithStatusMeta>) -> EncodedConfirmedBlock {
    EncodedConfirmedBlock {
        previous_blockhash: "prev".to_string(),
        blockhash: "hash".to_string(),
        parent_slot: 41,
        transactions,
        rewards: vec![],
        block_time: Some(1_600_000_000),
        block_height: Some(42),
    }
}

fn bare_meta() -> UiTransactionStatusMeta {
    UiTransactionStatusMeta {
        err: None,
        status: Ok(()),
        fee: 5000,
        pre_balances: vec![10, 20],
        post_balances: vec![5, 25],
        inner_instructions: None,
        log_messages: None,
        pre_token_balances: None,
        post_token_balances: None,
        rewards: None,
    }
}

fn wire_balance(index: u8) -> UiTransactionTokenBalance {
    UiTransactionTokenBalance {
        account_index: index,
        mint: "mint".to_string(),
        ui_token_amount: UiTokenAmount {
            ui_amount: Some(Number::Float(1.5f64.to_bits())),
            decimals: 1,
            amount: "15".to_string(),
            ui_amount_string: "1.5".to_string(),
        },
    }
}

fn reward(pubkey: &str) -> Reward {
    Reward {
        pubkey: pubkey.to_string(),
        lamports: -7,
        post_balance: 93,
        reward_type: Some(RewardType::Rent),
        commission: None,
    }
}

#[test]
fn one_supported_transaction_is_decoded() {
    let wire = block_of(vec![supported_tx("sig1")]);
    let mut block = ConfirmedBlock::new();
    assert!(block.decode(&wire).is_ok());
    assert_eq!(
        block.transactions,
        vec![Transaction {
            signatures: strings(&["sig1"]),
            message: Message {
                account_keys: strings(&["A", "B"]),
                num_required_signatures: 1,
                num_readonly_signed_accounts: 0,
                num_readonly_unsigned_accounts: 1,
            },
            metadata: None,
        }]
    );
}

#[test]
fn legacy_binary_is_refused() {
    let wire = block_of(vec![legacy_tx()]);
    let mut block = ConfirmedBlock::new();
    let outcome = block.decode(&wire).map(|_| ());
    assert_eq!(outcome, Err(SolProbeError::UnsupportedEncoding));
    assert!(block.transactions.is_empty());
}

#[test]
fn ledger_error_is_handed_on() {
    let mut tx = supported_tx("sig1");
    let mut meta = bare_meta();
    meta.err = Some(TransactionError::InstructionError(2, InstructionError::Custom(7)));
    meta.status = Err(TransactionError::InstructionError(2, InstructionError::Custom(7)));
    tx.meta = Some(meta);
    let wire = block_of(vec![tx]);
    let mut block = ConfirmedBlock::new();
    assert!(block.decode(&wire).is_ok());
    let metadata = block.transactions[0].metadata.as_ref().unwrap();
    assert_eq!(
        metadata.err,
        Some(TransactionError::InstructionError(2, InstructionError::Custom(7)))
    );
}

#[test]
fn header_fields_are_copied_verbatim() {
    let mut wire = block_of(vec![supported_tx("s")]);
    wire.rewards = vec![reward("validator")];
    wire.block_time = None;
    let mut block = ConfirmedBlock::new();
    assert!(block.decode(&wire).is_ok());
    assert_eq!(block.blockhash, "hash");
    assert_eq!(block.block_height, Some(42));
    assert_eq!(block.block_time, None);
    assert_eq!(block.rewards, vec![reward("validator")]);
}

#[test]
fn decode_returns_the_block_it_filled() {
    let wire = block_of(vec![supported_tx("s")]);
    let mut block = ConfirmedBlock::new();
    let filled = block.decode(&wire).unwrap();
    assert_eq!(filled.blockhash, "hash");
    filled.blockhash = "changed".to_string();
    assert_eq!(block.blockhash, "changed");
}

#[test]
fn empty_block_decodes_to_empty_block() {
    let wire = block_of(vec![]);
    let mut block = ConfirmedBlock::new();
    assert!(block.decode(&wire).is_ok());
    assert!(block.transactions.is_empty());
    assert_eq!(block.blockhash, "hash");
}

#[test]
fn order_of_transactions_is_preserved() {
    let names = ["s0", "s1", "s2", "s3", "s4"];
    let wire = block_of(names.iter().map(|n| supported_tx(n)).collect());
    let mut block = ConfirmedBlock::new();
    assert!(block.decode(&wire).is_ok());
    assert_eq!(block.transactions.len(), names.len());
    for (i, name) in names.iter().enumerate() {
        assert_eq!(block.transactions[i].signatures, strings(&[name]));
    }
}

#[test]
fn each_transaction_equals_its_own_decoding() {
    let mut second = supported_tx("s1");
    second.meta = Some(bare_meta());
    let wire = block_of(vec![supported_tx("s0"), second]);
    let mut block = ConfirmedBlock::new();
    assert!(block.decode(&wire).is_ok());
    for (i, tx) in wire.transactions.iter().enumerate() {
        let mut alone = Transaction::new();
        assert!(alone.decode_tx(tx).is_ok());
        assert_eq!(block.transactions[i], alone);
    }
}

#[test]
fn supported_shapes_always_decode() {
    for n in 0..6 {
        let wire = block_of((0..n).map(|i| supported_tx(&format!("s{}", i))).collect());
        let mut block = ConfirmedBlock::new();
        assert!(block.decode(&wire).is_ok());
        assert_eq!(block.transactions.len(), n);
    }
}

#[test]
fn unsupported_encoding_fails_at_every_place() {
    let n = 4;
    for k in 0..n {
        let mut transactions: Vec<_> = (0..n).map(|i| supported_tx(&format!("s{}", i))).collect();
        transactions[k] = legacy_tx();
        let wire = block_of(transactions);
        let mut block = ConfirmedBlock::new();
        let outcome = block.decode(&wire).map(|_| ());
        assert_eq!(outcome, Err(SolProbeError::UnsupportedEncoding));
        assert_eq!(block, ConfirmedBlock::new());
    }
}

#[test]
fn unsupported_message_fails_at_every_place() {
    let n = 4;
    for k in 0..n {
        let mut transactions: Vec<_> = (0..n).map(|i| supported_tx(&format!("s{}", i))).collect();
        transactions[k] = json_tx("p", parsed_message());
        let wire = block_of(transactions);
        let mut block = ConfirmedBlock::new();
        let outcome = block.decode(&wire).map(|_| ());
        assert_eq!(outcome, Err(SolProbeError::UnsupportedMessageType));
        assert_eq!(block, ConfirmedBlock::new());
    }
}

#[test]
fn first_unsupported_transaction_decides_the_error() {
    let wire = block_of(vec![supported_tx("s"), json_tx("p", parsed_message()), legacy_tx()]);
    let mut block = ConfirmedBlock::new();
    assert_eq!(block.decode(&wire).map(|_| ()), Err(SolProbeError::UnsupportedMessageType));

    let wire = block_of(vec![legacy_tx(), json_tx("p", parsed_message())]);
    let mut block = ConfirmedBlock::new();
    assert_eq!(block.decode(&wire).map(|_| ()), Err(SolProbeError::UnsupportedEncoding));
}

#[test]
fn every_named_binary_encoding_is_refused() {
    for encoding in [
        UiTransactionEncoding::Binary,
        UiTransactionEncoding::Base64,
        UiTransactionEncoding::Base58,
        UiTransactionEncoding::Json,
        UiTransactionEncoding::JsonParsed,
    ] {
        let mut tx = Transaction::new();
        let outcome = tx.decode_tx(&binary_tx(encoding)).map(|_| ());
        assert_eq!(outcome, Err(SolProbeError::UnsupportedEncoding));
    }
}

#[test]
fn failed_decode_leaves_the_block_as_it_was() {
    let good = block_of(vec![supported_tx("kept")]);
    let mut block = ConfirmedBlock::new();
    assert!(block.decode(&good).is_ok());

    let mut bad = block_of(vec![supported_tx("new"), legacy_tx()]);
    bad.blockhash = "other".to_string();
    assert!(block.decode(&bad).is_err());
    assert_eq!(block.blockhash, "hash");
    assert_eq!(block.transactions.len(), 1);
    assert_eq!(block.transactions[0].signatures, strings(&["kept"]));
}

#[test]
fn failed_decode_tx_leaves_the_transaction_as_it_was() {
    let mut tx = Transaction::new();
    assert!(tx.decode_tx(&supported_tx("kept")).is_ok());
    assert!(tx.decode_tx(&json_tx("p", parsed_message())).is_err());
    assert_eq!(tx.signatures, strings(&["kept"]));
    assert_eq!(tx.message.account_keys, strings(&["A", "B"]));
}

#[test]
fn absent_lists_become_empty_lists() {
    let metadata = Metadata::from(bare_meta());
    assert_eq!(metadata.log_messages, Vec::<String>::new());
    assert_eq!(metadata.pre_token_balances, Vec::<TokenBalance>::new());
    assert_eq!(metadata.post_token_balances, Vec::<TokenBalance>::new());
    assert_eq!(metadata.rewards, Vec::<Reward>::new());
    assert_eq!(metadata.err, None);
    assert_eq!(metadata.fee, 5000);
    assert_eq!(metadata.pre_balances, vec![10, 20]);
    assert_eq!(metadata.post_balances, vec![5, 25]);
}

#[test]
fn present_lists_are_kept_in_order() {
    let mut meta = bare_meta();
    meta.log_messages = Some(strings(&["first", "second"]));
    meta.pre_token_balances = Some(vec![wire_balance(3), wire_balance(1)]);
    meta.post_token_balances = Some(vec![]);
    meta.rewards = Some(vec![reward("a"), reward("b")]);
    let metadata: Metadata = meta.into();
    assert_eq!(metadata.log_messages, strings(&["first", "second"]));
    assert_eq!(metadata.pre_token_balances.len(), 2);
    assert_eq!(metadata.pre_token_balances[0].account_index, 3);
    assert_eq!(metadata.pre_token_balances[1].account_index, 1);
    assert!(metadata.post_token_balances.is_empty());
    assert_eq!(metadata.rewards, vec![reward("a"), reward("b")]);
}

#[test]
fn token_amount_fields_are_renamed() {
    let balance = TokenBalance::from(wire_balance(9));
    assert_eq!(
        balance,
        TokenBalance {
            account_index: 9,
            mint: "mint".to_string(),
            token_amount: TokenAmount {
                amount: Some(Number::Float(1.5f64.to_bits())),
                decimals: 1,
                string_amount: "15".to_string(),
                string_decimals: "1.5".to_string(),
            },
        }
    );
}

#[test]
fn to_token_balance_converts_each_in_order() {
    let balances = TokenBalance::to_token_balance(vec![wire_balance(2), wire_balance(0)]);
    assert_eq!(balances, vec![TokenBalance::from(wire_balance(2)), TokenBalance::from(wire_balance(0))]);
    assert!(TokenBalance::to_token_balance(vec![]).is_empty());
}

#[test]
fn metadata_of_a_transaction_is_decoded_with_it() {
    let mut wire = supported_tx("s");
    let mut meta = bare_meta();
    meta.err = Some(TransactionError::AccountInUse);
    wire.meta = Some(meta);
    let mut tx = Transaction::new();
    assert!(tx.decode_tx(&wire).is_ok());
    let metadata = tx.metadata.unwrap();
    assert_eq!(metadata.err, Some(TransactionError::AccountInUse));
    assert_eq!(metadata.fee, 5000);
    assert!(metadata.log_messages.is_empty());
}

#[test]
fn destruct_ui_message_takes_raw_only() {
    let tx = Transaction::new();
    let raw = raw_message(&["A"], (1, 2, 3));
    let taken = tx.destruct_ui_message(&raw).unwrap();
    assert_eq!(UiMessage::Raw(taken), raw);
    assert_eq!(
        tx.destruct_ui_message(&parsed_message()),
        Err(SolProbeError::UnsupportedMessageType)
    );
}

#[test]
fn new_values_are_empty() {
    let block = ConfirmedBlock::new();
    assert_eq!(block.blockhash, "");
    assert!(block.transactions.is_empty());
    assert!(block.rewards.is_empty());
    assert_eq!(block.block_time, None);
    assert_eq!(block.block_height, None);
    let tx = Transaction::new();
    assert!(tx.signatures.is_empty());
    assert_eq!(tx.message, Message::default());
    assert_eq!(tx.metadata, None);
    let message = Message::default();
    assert!(message.account_keys.is_empty());
    assert_eq!(message.num_required_signatures, 0);
    assert_eq!(message.num_readonly_signed_accounts, 0);
    assert_eq!(message.num_readonly_unsigned_accounts, 0);
}
