use cosmos_msg::msg::{
    BankMsg, Binary, Coin, CosmosMsg, DistributionMsg, Empty, GovMsg, StakingMsg, VoteOption,
    WasmMsg,
};

fn coin(denom: &str, amount: &str) -> Coin {
    Coin { denom: denom.to_string(), amount: amount.to_string() }
}

#[test]
fn bank_burn_upcast_equals_direct_construction() {
    let burn = BankMsg::Burn { amount: vec![coin("uscrt", "100")] };
    let via_upcast: CosmosMsg<Empty> = CosmosMsg::from(burn.clone());
    let direct: CosmosMsg<Empty> = CosmosMsg::Bank(burn);
    assert_eq!(via_upcast, direct);
}

#[test]
fn every_module_upcast_wraps_without_loss() {
    let s = StakingMsg::Delegate { validator: "v".to_string(), amount: coin("uscrt", "1") };
    assert_eq!(CosmosMsg::<Empty>::from(s.clone()), CosmosMsg::Staking(s));
    let d = DistributionMsg::WithdrawDelegatorReward { validator: "v".to_string() };
    assert_eq!(CosmosMsg::<Empty>::from(d.clone()), CosmosMsg::Distribution(d));
    let w = WasmMsg::Instantiate {
        code_id: 7,
        code_hash: "h".to_string(),
        msg: Binary(vec![]),
        funds: vec![],
        label: "l".to_string(),
        callback_sig: None,
    };
    assert_eq!(CosmosMsg::<Empty>::from(w.clone()), CosmosMsg::Wasm(w));
    let g = GovMsg::Vote { proposal_id: 3, vote: VoteOption::No };
    assert_eq!(CosmosMsg::<Empty>::from(g.clone()), CosmosMsg::Gov(g));
}

#[test]
fn contract_facing_constructors_never_set_callback_sig() {
    let e = WasmMsg::execute(
        "secret1abc".to_string(),
        "deadbeef".to_string(),
        Binary(vec![0x7b, 0x7d]),
        vec![coin("uscrt", "1")],
    );
    match &e {
        WasmMsg::Execute { callback_sig, .. } => assert!(callback_sig.is_none()),
        other => panic!("expected an execute message, got {:?}", other),
    }
    let i = WasmMsg::instantiate(
        9,
        "deadbeef".to_string(),
        Binary(vec![]),
        vec![],
        "my contract".to_string(),
    );
    match &i {
        WasmMsg::Instantiate { callback_sig, .. } => assert!(callback_sig.is_none()),
        other => panic!("expected an instantiate message, got {:?}", other),
    }
}

#[test]
fn dispatcher_path_sets_only_callback_sig() {
    let e = WasmMsg::execute(
        "secret1abc".to_string(),
        "deadbeef".to_string(),
        Binary(vec![1, 2]),
        vec![],
    );
    let signed = e.clone().with_callback_sig(vec![5, 6, 7]);
    match (&e, &signed) {
        (
            WasmMsg::Execute { contract_addr: a1, code_hash: h1, msg: m1, funds: f1, .. },
            WasmMsg::Execute {
                contract_addr: a2,
                code_hash: h2,
                msg: m2,
                funds: f2,
                callback_sig,
            },
        ) => {
            assert_eq!(a1, a2);
            assert_eq!(h1, h2);
            assert_eq!(m1, m2);
            assert_eq!(f1, f2);
            assert_eq!(callback_sig, &Some(vec![5, 6, 7]));
        }
        other => panic!("expected two execute messages, got {:?}", other),
    }
}

#[test]
fn coin_constructor_carries_fields_through() {
    let c = Coin::new("uscrt".to_string(), "100".to_string());
    assert_eq!(c, coin("uscrt", "100"));
}

#[test]
fn module_constructors_build_the_plain_variants() {
    assert_eq!(
        BankMsg::send("a".to_string(), vec![coin("uscrt", "1")]),
        BankMsg::Send { to_address: "a".to_string(), amount: vec![coin("uscrt", "1")] }
    );
    assert_eq!(BankMsg::burn(vec![]), BankMsg::Burn { amount: vec![] });
    assert_eq!(
        StakingMsg::delegate("v".to_string(), coin("uscrt", "2")),
        StakingMsg::Delegate { validator: "v".to_string(), amount: coin("uscrt", "2") }
    );
    assert_eq!(
        StakingMsg::undelegate("v".to_string(), coin("uscrt", "2")),
        StakingMsg::Undelegate { validator: "v".to_string(), amount: coin("uscrt", "2") }
    );
    assert_eq!(
        StakingMsg::redelegate("v1".to_string(), "v2".to_string(), coin("uscrt", "2")),
        StakingMsg::Redelegate {
            src_validator: "v1".to_string(),
            dst_validator: "v2".to_string(),
            amount: coin("uscrt", "2"),
        }
    );
    assert_eq!(
        DistributionMsg::set_withdraw_address("a".to_string()),
        DistributionMsg::SetWithdrawAddress { address: "a".to_string() }
    );
    assert_eq!(
        DistributionMsg::withdraw_delegator_reward("v".to_string()),
        DistributionMsg::WithdrawDelegatorReward { validator: "v".to_string() }
    );
    assert_eq!(
        GovMsg::vote(8, VoteOption::Abstain),
        GovMsg::Vote { proposal_id: 8, vote: VoteOption::Abstain }
    );
    assert_eq!(
        CosmosMsg::<Empty>::stargate("t".to_string(), Binary(vec![1])),
        CosmosMsg::Stargate { type_url: "t".to_string(), value: Binary(vec![1]) }
    );
}
