use cosmos_msg::codec::{
    decode_bank, decode_coin, decode_gov, decode_msg, decode_staking, decode_wasm, encode_bank,
    encode_coin, encode_gov, encode_msg, encode_staking, encode_wasm, CapabilitySet, DecodeError,
};
use cosmos_msg::msg::{
    reply_encryption_magic_bytes, BankMsg, Binary, Coin, CosmosMsg, DistributionMsg, Empty,
    GovMsg, StakingMsg, VoteOption, WasmMsg,
};
use cosmos_msg::wire::WireValue;

fn all_caps() -> CapabilitySet {
    CapabilitySet { staking: true, stargate: true }
}

fn coin(denom: &str, amount: &str) -> Coin {
    Coin { denom: denom.to_string(), amount: amount.to_string() }
}

fn round_trips(m: CosmosMsg<Empty>) {
    let wire = encode_msg(&m);
    let back = decode_msg(&wire, all_caps()).expect("canonical encoding must decode");
    assert_eq!(back, m);
}

#[test]
fn round_trip_bank_send() {
    round_trips(CosmosMsg::Bank(BankMsg::Send {
        to_address: "secret1dest".to_string(),
        amount: vec![coin("uscrt", "100"), coin("uatom", "7")],
    }));
}

#[test]
fn round_trip_bank_burn_empty_amount() {
    round_trips(CosmosMsg::Bank(BankMsg::Burn { amount: vec![] }));
}

#[test]
fn round_trip_custom() {
    round_trips(CosmosMsg::Custom(Empty {}));
}

#[test]
fn round_trip_staking_all_variants() {
    round_trips(CosmosMsg::Staking(StakingMsg::Delegate {
        validator: "secretvaloper1abc".to_string(),
        amount: coin("uscrt", "250"),
    }));
    round_trips(CosmosMsg::Staking(StakingMsg::Undelegate {
        validator: "secretvaloper1abc".to_string(),
        amount: coin("uscrt", "250"),
    }));
    round_trips(CosmosMsg::Staking(StakingMsg::Redelegate {
        src_validator: "secretvaloper1abc".to_string(),
        dst_validator: "secretvaloper1xyz".to_string(),
        amount: coin("uscrt", "1"),
    }));
}

#[test]
fn round_trip_distribution_all_variants() {
    round_trips(CosmosMsg::Distribution(DistributionMsg::SetWithdrawAddress {
        address: "secret1payout".to_string(),
    }));
    round_trips(CosmosMsg::Distribution(DistributionMsg::WithdrawDelegatorReward {
        validator: "secretvaloper1abc".to_string(),
    }));
}

#[test]
fn round_trip_stargate() {
    round_trips(CosmosMsg::Stargate {
        type_url: "/cosmos.bank.v1beta1.MsgSend".to_string(),
        value: Binary(vec![1, 2, 3, 255]),
    });
}

#[test]
fn round_trip_wasm_execute_with_callback_sig() {
    round_trips(CosmosMsg::Wasm(WasmMsg::Execute {
        contract_addr: "secret1abc".to_string(),
        code_hash: "deadbeef".to_string(),
        msg: Binary(vec![0x7b, 0x7d]),
        funds: vec![coin("uscrt", "42")],
        callback_sig: Some(vec![9, 9, 9]),
    }));
}

#[test]
fn round_trip_wasm_instantiate_zero_code_id() {
    round_trips(CosmosMsg::Wasm(WasmMsg::Instantiate {
        code_id: 0,
        code_hash: "deadbeef".to_string(),
        msg: Binary(vec![]),
        funds: vec![],
        label: "x".repeat(1024),
        callback_sig: None,
    }));
}

#[test]
fn round_trip_gov_all_vote_options() {
    for vote in [VoteOption::Yes, VoteOption::No, VoteOption::Abstain, VoteOption::NoWithVeto] {
        round_trips(CosmosMsg::Gov(GovMsg::Vote { proposal_id: u64::MAX, vote }));
    }
}

#[test]
fn wasm_execute_scenario_wire_shape() {
    // The envelope encodes as {"wasm":{"execute":{...}}} and the funds
    // field travels under the wire name "send", not "funds".
    let m: CosmosMsg<Empty> = CosmosMsg::Wasm(WasmMsg::Execute {
        contract_addr: "secret1abc".to_string(),
        code_hash: "deadbeef".to_string(),
        msg: Binary(vec![0x7b, 0x7d]),
        funds: vec![],
        callback_sig: None,
    });
    let wire = encode_msg(&m);
    let outer = match &wire {
        WireValue::Obj(fields) => {
            assert_eq!(fields.len(), 1);
            assert_eq!(fields[0].0, "wasm");
            &fields[0].1
        }
        other => panic!("expected an object, got {:?}", other),
    };
    let body = match outer {
        WireValue::Obj(fields) => {
            assert_eq!(fields.len(), 1);
            assert_eq!(fields[0].0, "execute");
            &fields[0].1
        }
        other => panic!("expected an object, got {:?}", other),
    };
    match body {
        WireValue::Obj(fields) => {
            let keys: Vec<&str> = fields.iter().map(|f| f.0.as_str()).collect();
            assert_eq!(keys, vec!["contract_addr", "code_hash", "msg", "send"]);
            assert!(!keys.contains(&"funds"));
            assert!(!keys.contains(&"callback_sig"));
        }
        other => panic!("expected an object, got {:?}", other),
    }
    let back = decode_msg(&wire, all_caps()).expect("scenario must decode");
    assert_eq!(back, m);
}

#[test]
fn envelope_tags_are_snake_case() {
    let cases: Vec<(CosmosMsg<Empty>, &str)> = vec![
        (CosmosMsg::Bank(BankMsg::Burn { amount: vec![] }), "bank"),
        (CosmosMsg::Custom(Empty {}), "custom"),
        (
            CosmosMsg::Staking(StakingMsg::Delegate {
                validator: "v".to_string(),
                amount: coin("uscrt", "1"),
            }),
            "staking",
        ),
        (
            CosmosMsg::Distribution(DistributionMsg::SetWithdrawAddress {
                address: "a".to_string(),
            }),
            "distribution",
        ),
        (
            CosmosMsg::Stargate { type_url: "t".to_string(), value: Binary(vec![]) },
            "stargate",
        ),
        (
            CosmosMsg::Wasm(WasmMsg::Instantiate {
                code_id: 1,
                code_hash: "h".to_string(),
                msg: Binary(vec![]),
                funds: vec![],
                label: "l".to_string(),
                callback_sig: None,
            }),
            "wasm",
        ),
        (
            CosmosMsg::Gov(GovMsg::Vote { proposal_id: 4, vote: VoteOption::NoWithVeto }),
            "gov",
        ),
    ];
    for (m, tag) in cases {
        match encode_msg(&m) {
            WireValue::Obj(fields) => {
                assert_eq!(fields.len(), 1);
                assert_eq!(fields[0].0, tag);
            }
            other => panic!("expected an object, got {:?}", other),
        }
    }
}

#[test]
fn staking_tag_rejected_without_capability() {
    // A payload carrying the "staking" tag fails with a decode error when
    // the staking capability is not enabled.
    let m: CosmosMsg<Empty> = CosmosMsg::Staking(StakingMsg::Delegate {
        validator: "secretvaloper1abc".to_string(),
        amount: coin("uscrt", "250"),
    });
    let wire = encode_msg(&m);
    let caps = CapabilitySet { staking: false, stargate: true };
    assert_eq!(decode_msg(&wire, caps), Err(DecodeError::UnknownTag));
    // With the capability enabled the same payload decodes.
    assert_eq!(decode_msg(&wire, all_caps()), Ok(m));
}

#[test]
fn gov_and_stargate_tags_rejected_without_capability() {
    let caps = CapabilitySet { staking: true, stargate: false };
    let gov: CosmosMsg<Empty> = CosmosMsg::Gov(GovMsg::Vote {
        proposal_id: 1,
        vote: VoteOption::Yes,
    });
    assert_eq!(decode_msg(&encode_msg(&gov), caps), Err(DecodeError::UnknownTag));
    let sg: CosmosMsg<Empty> = CosmosMsg::Stargate {
        type_url: "t".to_string(),
        value: Binary(vec![1]),
    };
    assert_eq!(decode_msg(&encode_msg(&sg), caps), Err(DecodeError::UnknownTag));
}

#[test]
fn unknown_tag_is_rejected() {
    // The "ibc" capability is not part of this build: its tag is unknown.
    let wire = WireValue::Obj(vec![("ibc".to_string(), WireValue::Obj(vec![]))]);
    assert_eq!(decode_msg(&wire, all_caps()), Err(DecodeError::UnknownTag));
    let wire = WireValue::Obj(vec![("banking".to_string(), WireValue::Obj(vec![]))]);
    assert_eq!(decode_msg(&wire, all_caps()), Err(DecodeError::UnknownTag));
}

#[test]
fn unknown_vote_option_is_rejected() {
    let wire = WireValue::Obj(vec![(
        "vote".to_string(),
        WireValue::Obj(vec![
            ("proposal_id".to_string(), WireValue::Uint(1)),
            ("vote".to_string(), WireValue::Text("maybe".to_string())),
        ]),
    )]);
    assert_eq!(decode_gov(&wire), Err(DecodeError::UnknownTag));
}

#[test]
fn missing_field_is_rejected() {
    // A coin object lacking its second field.
    let wire = WireValue::Obj(vec![("denom".to_string(), WireValue::Text("uscrt".to_string()))]);
    assert_eq!(decode_coin(&wire), Err(DecodeError::MissingField));
    // A field standing where another is required.
    let wire = WireValue::Obj(vec![
        ("denom".to_string(), WireValue::Text("uscrt".to_string())),
        ("worth".to_string(), WireValue::Text("100".to_string())),
    ]);
    assert_eq!(decode_coin(&wire), Err(DecodeError::MissingField));
}

#[test]
fn type_mismatch_is_rejected() {
    // A number where a string is required.
    let wire = WireValue::Obj(vec![
        ("denom".to_string(), WireValue::Uint(3)),
        ("amount".to_string(), WireValue::Text("100".to_string())),
    ]);
    assert_eq!(decode_coin(&wire), Err(DecodeError::TypeMismatch));
    // A top-level node that is no object at all.
    assert_eq!(
        decode_msg(&WireValue::Text("bank".to_string()), all_caps()),
        Err(DecodeError::TypeMismatch)
    );
    // An envelope with two tags.
    let wire = WireValue::Obj(vec![
        ("bank".to_string(), WireValue::Obj(vec![])),
        ("gov".to_string(), WireValue::Obj(vec![])),
    ]);
    assert_eq!(decode_msg(&wire, all_caps()), Err(DecodeError::TypeMismatch));
}

#[test]
fn sub_union_codecs_round_trip() {
    let b = BankMsg::Send { to_address: "a".to_string(), amount: vec![coin("uscrt", "5")] };
    assert_eq!(decode_bank(&encode_bank(&b)), Ok(b));
    let s = StakingMsg::Redelegate {
        src_validator: "v1".to_string(),
        dst_validator: "v2".to_string(),
        amount: coin("uscrt", "3"),
    };
    assert_eq!(decode_staking(&encode_staking(&s)), Ok(s));
    let w = WasmMsg::Execute {
        contract_addr: "c".to_string(),
        code_hash: "h".to_string(),
        msg: Binary(vec![1]),
        funds: vec![],
        callback_sig: Some(vec![7]),
    };
    assert_eq!(decode_wasm(&encode_wasm(&w)), Ok(w));
    let g = GovMsg::Vote { proposal_id: 2, vote: VoteOption::Abstain };
    assert_eq!(decode_gov(&encode_gov(&g)), Ok(g));
}

#[test]
fn conversion_losslessness_through_the_envelope() {
    // decode(encode(envelope_from(m))) equals envelope_from(decode(encode(m)))
    // for a module sub-union value m.
    let m = BankMsg::Burn { amount: vec![coin("uscrt", "100")] };
    let lhs = decode_msg(&encode_msg(&CosmosMsg::<Empty>::from(m.clone())), all_caps());
    let rhs = decode_bank(&encode_bank(&m)).map(|b| CosmosMsg::<Empty>::from(b));
    assert_eq!(lhs, rhs);
}

#[test]
fn coin_codec_exact_wire() {
    let c = coin("uscrt", "100");
    match encode_coin(&c) {
        WireValue::Obj(fields) => {
            assert_eq!(fields.len(), 2);
            assert_eq!(fields[0].0, "denom");
            assert_eq!(fields[0].1, WireValue::Text("uscrt".to_string()));
            assert_eq!(fields[1].0, "amount");
            assert_eq!(fields[1].1, WireValue::Text("100".to_string()));
        }
        other => panic!("expected an object, got {:?}", other),
    }
}

#[test]
fn reply_encryption_magic_bytes_are_fixed() {
    assert_eq!(reply_encryption_magic_bytes(), b"REPLY01".to_vec());
}
