use solprobe::solana_blocks::confirmed_blocks::BlockResponse;
use solprobe::solana_blocks::encoded_transactions::{
    EncodedTransaction, Reward, RewardType, UiTransactionEncoding, UiTransactionStatusMeta,
};
use solprobe::solana_blocks::instructions::{UiInstruction, UiParsedInstruction};
use solprobe::solana_blocks::messages::UiMessage;
use solprobe::{
    ConfirmedBlock, InstructionError, Number, RpcRequest, SolProbeError, TransactionError, Value,
    Wire,
};

/// The tree that the JSON parser built, as a tree of the library.
fn lift(v: &serde_json::Value) -> Value {
    match v {
        serde_json::Value::Null => Value::Null,
        serde_json::Value::Bool(b) => Value::Bool(*b),
        serde_json::Value::Number(n) => {
            if let Some(u) = n.as_u64() {
                Value::Number(Number::PosInt(u))
            } else if let Some(i) = n.as_i64() {
                Value::Number(Number::NegInt(i))
            } else {
                Value::Number(Number::Float(n.as_f64().unwrap().to_bits()))
            }
        }
        serde_json::Value::String(s) => Value::String(s.clone()),
        serde_json::Value::Array(items) => Value::Array(items.iter().map(lift).collect()),
        serde_json::Value::Object(members) => {
            Value::Object(members.iter().map(|(k, v)| (k.clone(), lift(v))).collect())
        }
    }
}

/// A tree of the library, as a tree that the JSON printer takes.
fn lower(v: &Value) -> serde_json::Value {
    match v {
        Value::Null => serde_json::Value::Null,
        Value::Bool(b) => serde_json::Value::Bool(*b),
        Value::Number(Number::PosInt(u)) => serde_json::Value::from(*u),
        Value::Number(Number::NegInt(i)) => serde_json::Value::from(*i),
        Value::Number(Number::Float(bits)) => serde_json::Value::from(f64::from_bits(*bits)),
        Value::String(s) => serde_json::Value::String(s.clone()),
        Value::Array(items) => serde_json::Value::Array(items.iter().map(lower).collect()),
        Value::Object(members) => serde_json::Value::Object(
            members.iter().map(|(k, v)| (k.clone(), lower(v))).collect(),
        ),
    }
}

fn parse(text: &str) -> Value {
    lift(&serde_json::from_str::<serde_json::Value>(text).unwrap())
}

fn print(v: &Value) -> String {
    serde_json::to_string(&lower(v)).unwrap()
}

const RESPONSE: &str = r#"{
  "jsonrpc": "2.0",
  "id": 1,
  "result": {
    "blockHeight": 428,
    "blockTime": null,
    "blockhash": "3Eq21vXNB5s86c62bVuUfTeaMif1N2kUqRPBmGRJhyTA",
    "parentSlot": 429,
    "previousBlockhash": "mfcyqEXB3DnHXki6KjjmZck6YjmZLvpAByy2fj4nh6B",
    "rewards": [
      {"pubkey": "Vote111", "lamports": -5, "postBalance": 499998932500, "rewardType": "Voting", "commission": 10},
      {"pubkey": "Fee111", "lamports": 2500, "postBalance": 7, "rewardType": null, "commission": null}
    ],
    "transactions": [
      {
        "meta": {
          "err": null,
          "fee": 5000,
          "innerInstructions": [],
          "logMessages": ["Program log: hello"],
          "postBalances": [499998932500, 26858640, 1, 1, 1],
          "postTokenBalances": [
            {"accountIndex": 1, "mint": "Mint111",
             "uiTokenAmount": {"uiAmount": 1.5, "decimals": 1, "amount": "15", "uiAmountString": "1.5"}}
          ],
          "preBalances": [499998937500, 26858640, 1, 1, 1],
          "preTokenBalances": [],
          "status": {"Ok": null}
        },
        "transaction": {
          "message": {
            "accountKeys": ["3UVYmECPPMZSCqWKfENfuoTv51fTDTWicX9xmBD2euKe", "AjozzgE83A3x1sHNUR64hfH7zaEBWeMaFuAN9kQgujrc"],
            "header": {"numReadonlySignedAccounts": 0, "numReadonlyUnsignedAccounts": 3, "numRequiredSignatures": 1},
            "instructions": [{"accounts": [1, 0], "data": "37u9WtQpcm6ULa3WRQHmj49EPs4if7o9f1jSRVZpm2dvihR9C8jY4NqEwXUbLwx15HBSNcP1", "programIdIndex": 1}],
            "recentBlockhash": "mfcyqEXB3DnHXki6KjjmZck6YjmZLvpAByy2fj4nh6B"
          },
          "signatures": ["2nBhEBYYvfaAe16UMNqRHre4YNSskvuYgx3M6E4JP1oDYvZEJHvoPzyUidNgNX5r9sTyN1J9UxtbCXy2rqYcuyuv"]
        }
      },
      {
        "meta": {
          "err": {"InstructionError": [2, {"Custom": 7}]},
          "fee": 5000,
          "postBalances": [1],
          "preBalances": [2],
          "status": {"Err": {"InstructionError": [2, {"Custom": 7}]}}
        },
        "transaction": {
          "message": {
            "accountKeys": ["A", "B"],
            "header": {"numReadonlySignedAccounts": 0, "numReadonlyUnsignedAccounts": 1, "numRequiredSignatures": 1},
            "instructions": [],
            "recentBlockhash": "recent"
          },
          "signatures": ["sig1"]
        }
      }
    ]
  }
}"#;

#[test]
fn decode() {
    let request = serde_json::Map::from_iter([
        ("jsonrpc".to_string(), serde_json::Value::from("2.0")),
        ("id".to_string(), serde_json::Value::from(1)),
        ("method".to_string(), serde_json::Value::from(RpcRequest::GetBlock.to_camel_case())),
        ("params".to_string(), serde_json::Value::from(vec![1])),
    ]);
    assert_eq!(
        serde_json::Value::Object(request).to_string(),
        r#"{"id":1,"jsonrpc":"2.0","method":"getBlock","params":[1]}"#
    );

    let response = parse(RESPONSE);
    let parsed_response = BlockResponse::from_value(&response).unwrap();
    assert_eq!(parsed_response.jsonrpc, "2.0");
    let mut end = ConfirmedBlock::new();
    assert!(end.decode(&parsed_response.result).is_ok());

    println!("{:#?}", &end);
    assert_eq!(end.blockhash, "3Eq21vXNB5s86c62bVuUfTeaMif1N2kUqRPBmGRJhyTA");
    assert_eq!(end.block_height, Some(428));
    assert_eq!(end.block_time, None);
    assert_eq!(end.rewards.len(), 2);
    assert_eq!(
        end.rewards[0],
        Reward {
            pubkey: "Vote111".to_string(),
            lamports: -5,
            post_balance: 499998932500,
            reward_type: Some(RewardType::Voting),
            commission: Some(10),
        }
    );
    assert_eq!(end.transactions.len(), 2);
    let first = end.transactions[0].metadata.as_ref().unwrap();
    assert_eq!(first.err, None);
    assert_eq!(first.log_messages, vec!["Program log: hello".to_string()]);
    assert!(first.pre_token_balances.is_empty());
    assert_eq!(first.post_token_balances.len(), 1);
    assert_eq!(
        first.post_token_balances[0].token_amount.amount,
        Some(Number::Float(1.5f64.to_bits()))
    );
    assert!(first.rewards.is_empty());
    assert_eq!(end.transactions[0].message.num_readonly_unsigned_accounts, 3);
    let second = end.transactions[1].metadata.as_ref().unwrap();
    assert_eq!(
        second.err,
        Some(TransactionError::InstructionError(2, InstructionError::Custom(7)))
    );
    assert!(second.log_messages.is_empty());
    assert_eq!(end.transactions[1].signatures, vec!["sig1".to_string()]);
}

#[test]
fn block_response_is_read_back_from_its_own_text() {
    let response = BlockResponse::from_value(&parse(RESPONSE)).unwrap();
    let text = print(&response.to_value());
    let again = BlockResponse::from_value(&parse(&text)).unwrap();
    assert_eq!(again, response);
}

#[test]
fn transaction_errors_are_written_by_name() {
    assert_eq!(print(&TransactionError::AccountInUse.to_value()), r#""AccountInUse""#);
    assert_eq!(
        print(&TransactionError::WouldExceedMaxBlockCostLimit.to_value()),
        r#""WouldExceedMaxBlockCostLimit""#
    );
    assert_eq!(
        print(&TransactionError::InstructionError(2, InstructionError::Custom(7)).to_value()),
        r#"{"InstructionError":[2,{"Custom":7}]}"#
    );
    assert_eq!(
        print(
            &TransactionError::InstructionError(0, InstructionError::InvalidAccountData)
                .to_value()
        ),
        r#"{"InstructionError":[0,"InvalidAccountData"]}"#
    );
}

#[test]
fn instruction_errors_are_written_by_name() {
    assert_eq!(print(&InstructionError::GenericError.to_value()), r#""GenericError""#);
    assert_eq!(print(&InstructionError::Custom(4294967295).to_value()), r#"{"Custom":4294967295}"#);
    assert_eq!(
        print(&InstructionError::BorshIoError("unexpected end".to_string()).to_value()),
        r#"{"BorshIoError":"unexpected end"}"#
    );
}

#[test]
fn transaction_errors_are_read_from_text() {
    assert_eq!(
        TransactionError::from_value(&parse(r#""BlockhashNotFound""#)),
        Some(TransactionError::BlockhashNotFound)
    );
    assert_eq!(
        TransactionError::from_value(&parse(r#"{"InstructionError":[2,{"Custom":7}]}"#)),
        Some(TransactionError::InstructionError(2, InstructionError::Custom(7)))
    );
    assert_eq!(
        TransactionError::from_value(&parse(r#"{"InstructionError":[255,{"BorshIoError":"x"}]}"#)),
        Some(TransactionError::InstructionError(
            255,
            InstructionError::BorshIoError("x".to_string())
        ))
    );
}

#[test]
fn malformed_transaction_errors_are_refused() {
    for text in [
        r#""NoSuchError""#,
        r#""InstructionError""#,
        r#"{"InstructionError":[2]}"#,
        r#"{"InstructionError":[2,{"Custom":7},3]}"#,
        r#"{"InstructionError":[256,{"Custom":7}]}"#,
        r#"{"InstructionError":[2,{"Custom":4294967296}]}"#,
        r#"{"InstructionError":[2,{"Custom":-1}]}"#,
        r#"{"InstructionError":[2,{"Custom":7.0}]}"#,
        r#"{"InstructionError":[2,"Custom"]}"#,
        r#"{"InstructionError":{"index":2}}"#,
        r#"{"AccountInUse":null,"AccountNotFound":null}"#,
        r#"{}"#,
        r#"[]"#,
        r#"null"#,
        r#"7"#,
    ] {
        assert_eq!(TransactionError::from_value(&parse(text)), None, "{}", text);
    }
}

#[test]
fn reward_types_are_written_by_name() {
    assert_eq!(print(&RewardType::Fee.to_value()), r#""Fee""#);
    assert_eq!(print(&RewardType::Rent.to_value()), r#""Rent""#);
    assert_eq!(print(&RewardType::Staking.to_value()), r#""Staking""#);
    assert_eq!(print(&RewardType::Voting.to_value()), r#""Voting""#);
    assert_eq!(RewardType::from_value(&parse(r#""fee""#)), None);
}

#[test]
fn encodings_are_written_in_camel_case() {
    assert_eq!(print(&UiTransactionEncoding::Binary.to_value()), r#""binary""#);
    assert_eq!(print(&UiTransactionEncoding::Base64.to_value()), r#""base64""#);
    assert_eq!(print(&UiTransactionEncoding::Base58.to_value()), r#""base58""#);
    assert_eq!(print(&UiTransactionEncoding::Json.to_value()), r#""json""#);
    assert_eq!(print(&UiTransactionEncoding::JsonParsed.to_value()), r#""jsonParsed""#);
    assert_eq!(UiTransactionEncoding::from_value(&parse(r#""Base64""#)), None);
}

#[test]
fn normaliser_errors_are_written_in_camel_case() {
    assert_eq!(print(&SolProbeError::UnsupportedEncoding.to_value()), r#""unsupportedEncoding""#);
    assert_eq!(
        print(&SolProbeError::UnsupportedMessageType.to_value()),
        r#""unsupportedMessageType""#
    );
    assert_eq!(
        SolProbeError::from_value(&parse(r#""unsupportedMessageType""#)),
        Some(SolProbeError::UnsupportedMessageType)
    );
}

#[test]
fn encoded_transaction_shapes_are_tried_in_order() {
    assert_eq!(
        EncodedTransaction::from_value(&parse(r#""base58str""#)),
        Some(EncodedTransaction::LegacyBinary("base58str".to_string()))
    );
    assert_eq!(
        EncodedTransaction::from_value(&parse(r#"["AAAA","base64"]"#)),
        Some(EncodedTransaction::Binary("AAAA".to_string(), UiTransactionEncoding::Base64))
    );
    let json = r#"{"signatures":["s"],"message":{"header":{"numRequiredSignatures":1,"numReadonlySignedAccounts":0,"numReadonlyUnsignedAccounts":1},"accountKeys":["A","B"],"recentBlockhash":"r","instructions":[]}}"#;
    match EncodedTransaction::from_value(&parse(json)) {
        Some(EncodedTransaction::Json(tx)) => {
            assert_eq!(tx.signatures, vec!["s".to_string()]);
            assert!(matches!(tx.message, UiMessage::Raw(_)));
        }
        other => panic!("{:?}", other),
    }
    for text in [r#"["AAAA"]"#, r#"["AAAA","base64","more"]"#, r#"["AAAA","hex"]"#, r#"7"#, r#"{}"#] {
        assert_eq!(EncodedTransaction::from_value(&parse(text)), None, "{}", text);
    }
}

#[test]
fn message_shapes_are_tried_raw_first() {
    // With a header the text fits the raw shape; the parsed shape is tried
    // only where the raw one does not fit.
    let raw = r#"{"header":{"numRequiredSignatures":1,"numReadonlySignedAccounts":0,"numReadonlyUnsignedAccounts":1},"accountKeys":[],"recentBlockhash":"r","instructions":[]}"#;
    assert!(matches!(UiMessage::from_value(&parse(raw)), Some(UiMessage::Raw(_))));
    let parsed = r#"{"accountKeys":[{"pubkey":"A","writable":true,"signer":false}],"recentBlockhash":"r","instructions":[{"program":"system","programId":"11111111111111111111111111111111","parsed":{"type":"transfer","info":{"lamports":1.5e3}}},{"programId":"P","accounts":["A"],"data":"d"},{"programIdIndex":0,"accounts":[0],"data":"d"}]}"#;
    match UiMessage::from_value(&parse(parsed)) {
        Some(UiMessage::Parsed(m)) => {
            assert_eq!(m.account_keys[0].pubkey, "A");
            assert!(matches!(
                m.instructions[0],
                UiInstruction::Parsed(UiParsedInstruction::Parsed(_))
            ));
            assert!(matches!(
                m.instructions[1],
                UiInstruction::Parsed(UiParsedInstruction::PartiallyDecoded(_))
            ));
            assert!(matches!(m.instructions[2], UiInstruction::Compiled(_)));
            let again = UiMessage::Parsed(m).to_value();
            assert_eq!(lower(&again), serde_json::from_str::<serde_json::Value>(parsed).unwrap());
        }
        other => panic!("{:?}", other),
    }
    assert_eq!(UiMessage::from_value(&parse(r#"{"recentBlockhash":"r"}"#)), None);
}

#[test]
fn absent_and_null_lists_of_metadata_read_alike() {
    let absent = r#"{"err":null,"status":{"Ok":null},"fee":1,"preBalances":[],"postBalances":[]}"#;
    let null = r#"{"err":null,"status":{"Ok":null},"fee":1,"preBalances":[],"postBalances":[],"innerInstructions":null,"logMessages":null,"preTokenBalances":null,"postTokenBalances":null,"rewards":null}"#;
    let a = UiTransactionStatusMeta::from_value(&parse(absent)).unwrap();
    let b = UiTransactionStatusMeta::from_value(&parse(null)).unwrap();
    assert_eq!(a, b);
    assert_eq!(a.log_messages, None);
    assert_eq!(a.rewards, None);
    assert_eq!(print(&a.to_value()), print(&parse(null)));
    let empty = r#"{"err":null,"status":{"Ok":null},"fee":1,"preBalances":[],"postBalances":[],"logMessages":[]}"#;
    let c = UiTransactionStatusMeta::from_value(&parse(empty)).unwrap();
    assert_eq!(c.log_messages, Some(vec![]));
}

#[test]
fn metadata_without_a_required_member_is_refused() {
    for text in [
        r#"{"err":null,"fee":1,"preBalances":[],"postBalances":[]}"#,
        r#"{"err":null,"status":{"Ok":null},"preBalances":[],"postBalances":[]}"#,
        r#"{"err":null,"status":{"Ok":null},"fee":1,"postBalances":[]}"#,
        r#"{"err":null,"status":{"Ok":7},"fee":1,"preBalances":[],"postBalances":[]}"#,
        r#"{"err":null,"status":{"Ok":null},"fee":-1,"preBalances":[],"postBalances":[]}"#,
        r#"{"err":null,"status":{"Ok":null},"fee":1,"preBalances":[1.5],"postBalances":[]}"#,
        r#"{"err":"Nonsense","status":{"Ok":null},"fee":1,"preBalances":[],"postBalances":[]}"#,
    ] {
        assert_eq!(UiTransactionStatusMeta::from_value(&parse(text)), None, "{}", text);
    }
}

#[test]
fn rewards_hold_signed_and_unsigned_amounts() {
    let text = r#"{"pubkey":"P","lamports":-9223372036854775808,"postBalance":18446744073709551615,"rewardType":"Staking","commission":255}"#;
    let reward = Reward::from_value(&parse(text)).unwrap();
    assert_eq!(reward.lamports, i64::MIN);
    assert_eq!(reward.post_balance, u64::MAX);
    assert_eq!(reward.commission, Some(255));
    assert_eq!(
        lower(&reward.to_value()),
        serde_json::from_str::<serde_json::Value>(text).unwrap()
    );
    let over = r#"{"pubkey":"P","lamports":9223372036854775808,"postBalance":1,"rewardType":null,"commission":null}"#;
    assert_eq!(Reward::from_value(&parse(over)), None);
    let wide = r#"{"pubkey":"P","lamports":1,"postBalance":1,"rewardType":null,"commission":256}"#;
    assert_eq!(Reward::from_value(&parse(wide)), None);
}
