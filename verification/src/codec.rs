//! Wire codec for the message envelope.
//!
//! The wire mapping is a compatibility contract with an external,
//! independently deployed host: every union discriminant is encoded as an
//! external tag equal to the variant's lower-case snake_case name, struct
//! fields use their snake_case names, and the `funds` field of both wasm
//! variants travels under the frozen wire name `send`.  The optional
//! `callback_sig` field is absent when unset — no placeholder is written.
//!
//! Decoding accepts exactly the canonical encoding: an unrecognized tag
//! (including the tag of a capability the decoder does not enable) is a
//! [`DecodeError::UnknownTag`]; a required field that is not at its place is
//! a [`DecodeError::MissingField`]; any other departure from the declared
//! shape is a [`DecodeError::TypeMismatch`].

use vstd::prelude::*;

use crate::msg::{
    BankMsg, BankMsgModel, Coin, CoinModel, CosmosMsg, CosmosMsgModel, DistributionMsg,
    DistributionMsgModel, Empty, GovMsg, GovMsgModel, StakingMsg, StakingMsgModel, VoteOption,
    WasmMsg, WasmMsgModel,
};
use crate::wire::{WireTree, WireValue};

verus! {

/// Why a wire payload was rejected.  A malformed envelope is never
/// partially interpreted: the error is surfaced to the caller, who must
/// reject the whole containing execution result.
#[derive(Clone, Copy, Debug, PartialEq, Eq, Structural)]
pub enum DecodeError {
    /// The union tag (or an enumeration value) is not recognized, for
    /// example because the capability it belongs to is not enabled.
    UnknownTag,
    /// A required field is not at its place in the object.
    MissingField,
    /// A node does not have the declared shape.
    TypeMismatch,
}

/// Which optional capability sets the decoder enables.  A deployment that
/// omits a capability rejects wire payloads carrying its tags.
#[derive(Clone, Copy, Debug, PartialEq, Eq, Structural)]
pub struct CapabilitySet {
    /// Enables the staking and distribution module messages.
    pub staking: bool,
    /// Enables the raw protocol passthrough and governance messages.
    pub stargate: bool,
}

// ---------------------------------------------------------------------
// The wire form of each value, as a function of its model.
// ---------------------------------------------------------------------

pub open spec fn coin_wire(c: CoinModel) -> WireTree {
    WireTree::Obj(
        seq![
            ("denom"@, WireTree::Text(c.denom)),
            ("amount"@, WireTree::Text(c.amount)),
        ],
    )
}

pub open spec fn coins_wire(cs: Seq<CoinModel>) -> WireTree {
    WireTree::Arr(cs.map_values(|c: CoinModel| coin_wire(c)))
}

pub open spec fn bank_wire(m: BankMsgModel) -> WireTree {
    match m {
        BankMsgModel::Send { to_address, amount } => WireTree::Obj(
            seq![
                (
                    "send"@,
                    WireTree::Obj(
                        seq![
                            ("to_address"@, WireTree::Text(to_address)),
                            ("amount"@, coins_wire(amount)),
                        ],
                    ),
                ),
            ],
        ),
        BankMsgModel::Burn { amount } => WireTree::Obj(
            seq![("burn"@, WireTree::Obj(seq![("amount"@, coins_wire(amount))]))],
        ),
    }
}

pub open spec fn staking_wire(m: StakingMsgModel) -> WireTree {
    match m {
        StakingMsgModel::Delegate { validator, amount } => WireTree::Obj(
            seq![
                (
                    "delegate"@,
                    WireTree::Obj(
                        seq![
                            ("validator"@, WireTree::Text(validator)),
                            ("amount"@, coin_wire(amount)),
                        ],
                    ),
                ),
            ],
        ),
        StakingMsgModel::Undelegate { validator, amount } => WireTree::Obj(
            seq![
                (
                    "undelegate"@,
                    WireTree::Obj(
                        seq![
                            ("validator"@, WireTree::Text(validator)),
                            ("amount"@, coin_wire(amount)),
                        ],
                    ),
                ),
            ],
        ),
        StakingMsgModel::Redelegate { src_validator, dst_validator, amount } => WireTree::Obj(
            seq![
                (
                    "redelegate"@,
                    WireTree::Obj(
                        seq![
                            ("src_validator"@, WireTree::Text(src_validator)),
                            ("dst_validator"@, WireTree::Text(dst_validator)),
                            ("amount"@, coin_wire(amount)),
                        ],
                    ),
                ),
            ],
        ),
    }
}

pub open spec fn distribution_wire(m: DistributionMsgModel) -> WireTree {
    match m {
        DistributionMsgModel::SetWithdrawAddress { address } => WireTree::Obj(
            seq![
                (
                    "set_withdraw_address"@,
                    WireTree::Obj(seq![("address"@, WireTree::Text(address))]),
                ),
            ],
        ),
        DistributionMsgModel::WithdrawDelegatorReward { validator } => WireTree::Obj(
            seq![
                (
                    "withdraw_delegator_reward"@,
                    WireTree::Obj(seq![("validator"@, WireTree::Text(validator))]),
                ),
            ],
        ),
    }
}

pub open spec fn wasm_wire(m: WasmMsgModel) -> WireTree {
    match m {
        WasmMsgModel::Execute { contract_addr, code_hash, msg, funds, callback_sig } => {
            let required = seq![
                ("contract_addr"@, WireTree::Text(contract_addr)),
                ("code_hash"@, WireTree::Text(code_hash)),
                ("msg"@, WireTree::Bytes(msg)),
                ("send"@, coins_wire(funds)),
            ];
            let fields = match callback_sig {
                None => required,
                Some(sig) => required.push(("callback_sig"@, WireTree::Bytes(sig))),
            };
            WireTree::Obj(seq![("execute"@, WireTree::Obj(fields))])
        },
        WasmMsgModel::Instantiate { code_id, code_hash, msg, funds, label, callback_sig } => {
            let required = seq![
                ("code_id"@, WireTree::Uint(code_id)),
                ("code_hash"@, WireTree::Text(code_hash)),
                ("msg"@, WireTree::Bytes(msg)),
                ("send"@, coins_wire(funds)),
                ("label"@, WireTree::Text(label)),
            ];
            let fields = match callback_sig {
                None => required,
                Some(sig) => required.push(("callback_sig"@, WireTree::Bytes(sig))),
            };
            WireTree::Obj(seq![("instantiate"@, WireTree::Obj(fields))])
        },
    }
}

pub open spec fn vote_wire(v: VoteOption) -> WireTree {
    match v {
        VoteOption::Yes => WireTree::Text("yes"@),
        VoteOption::No => WireTree::Text("no"@),
        VoteOption::Abstain => WireTree::Text("abstain"@),
        VoteOption::NoWithVeto => WireTree::Text("no_with_veto"@),
    }
}

pub open spec fn gov_wire(m: GovMsgModel) -> WireTree {
    match m {
        GovMsgModel::Vote { proposal_id, vote } => WireTree::Obj(
            seq![
                (
                    "vote"@,
                    WireTree::Obj(
                        seq![
                            ("proposal_id"@, WireTree::Uint(proposal_id)),
                            ("vote"@, vote_wire(vote)),
                        ],
                    ),
                ),
            ],
        ),
    }
}

/// The wire form of an envelope: the variant's snake_case tag wrapping the
/// module payload.  The default `Custom` payload encodes as an empty
/// object.
pub open spec fn msg_wire(m: CosmosMsgModel<Empty>) -> WireTree {
    match m {
        CosmosMsgModel::Bank(b) => WireTree::Obj(seq![("bank"@, bank_wire(b))]),
        CosmosMsgModel::Custom(_) => WireTree::Obj(
            seq![("custom"@, WireTree::Obj(Seq::empty()))],
        ),
        CosmosMsgModel::Staking(s) => WireTree::Obj(seq![("staking"@, staking_wire(s))]),
        CosmosMsgModel::Distribution(d) => WireTree::Obj(
            seq![("distribution"@, distribution_wire(d))],
        ),
        CosmosMsgModel::Stargate { type_url, value } => WireTree::Obj(
            seq![
                (
                    "stargate"@,
                    WireTree::Obj(
                        seq![
                            ("type_url"@, WireTree::Text(type_url)),
                            ("value"@, WireTree::Bytes(value)),
                        ],
                    ),
                ),
            ],
        ),
        CosmosMsgModel::Wasm(w) => WireTree::Obj(seq![("wasm"@, wasm_wire(w))]),
        CosmosMsgModel::Gov(g) => WireTree::Obj(seq![("gov"@, gov_wire(g))]),
    }
}

/// The variant's wire tag: the lower-case snake_case name frozen by the
/// external host.
pub open spec fn msg_tag(m: CosmosMsgModel<Empty>) -> Seq<char> {
    match m {
        CosmosMsgModel::Bank(_) => "bank"@,
        CosmosMsgModel::Custom(_) => "custom"@,
        CosmosMsgModel::Staking(_) => "staking"@,
        CosmosMsgModel::Distribution(_) => "distribution"@,
        CosmosMsgModel::Stargate { .. } => "stargate"@,
        CosmosMsgModel::Wasm(_) => "wasm"@,
        CosmosMsgModel::Gov(_) => "gov"@,
    }
}

/// Whether the capability the variant belongs to is enabled.
pub open spec fn capability_allows(caps: CapabilitySet, m: CosmosMsgModel<Empty>) -> bool {
    match m {
        CosmosMsgModel::Staking(_) => caps.staking,
        CosmosMsgModel::Distribution(_) => caps.staking,
        CosmosMsgModel::Stargate { .. } => caps.stargate,
        CosmosMsgModel::Gov(_) => caps.stargate,
        _ => true,
    }
}

// ---------------------------------------------------------------------
// The value a wire tree decodes to, as a function of the tree.
// ---------------------------------------------------------------------

pub open spec fn text_of(w: WireTree) -> Result<Seq<char>, DecodeError> {
    match w {
        WireTree::Text(s) => Ok(s),
        _ => Err(DecodeError::TypeMismatch),
    }
}

pub open spec fn bytes_of(w: WireTree) -> Result<Seq<u8>, DecodeError> {
    match w {
        WireTree::Bytes(b) => Ok(b),
        _ => Err(DecodeError::TypeMismatch),
    }
}

pub open spec fn uint_of(w: WireTree) -> Result<u64, DecodeError> {
    match w {
        WireTree::Uint(n) => Ok(n),
        _ => Err(DecodeError::TypeMismatch),
    }
}

pub open spec fn coin_of_wire(w: WireTree) -> Result<CoinModel, DecodeError> {
    match w {
        WireTree::Obj(fs) => {
            if fs.len() < 2 {
                Err(DecodeError::MissingField)
            } else if fs.len() > 2 {
                Err(DecodeError::TypeMismatch)
            } else if fs[0].0 != "denom"@ {
                Err(DecodeError::MissingField)
            } else if fs[1].0 != "amount"@ {
                Err(DecodeError::MissingField)
            } else {
                match (text_of(fs[0].1), text_of(fs[1].1)) {
                    (Err(e), _) => Err(e),
                    (_, Err(e)) => Err(e),
                    (Ok(denom), Ok(amount)) => Ok(CoinModel { denom, amount }),
                }
            }
        },
        _ => Err(DecodeError::TypeMismatch),
    }
}

/// Decodes the elements of a coin array, left to right; the error of the
/// leftmost malformed element wins.
pub open spec fn coins_of_elems(es: Seq<WireTree>) -> Result<Seq<CoinModel>, DecodeError>
    decreases es.len(),
{
    if es.len() == 0 {
        Ok(Seq::empty())
    } else {
        match coins_of_elems(es.drop_last()) {
            Err(e) => Err(e),
            Ok(init) => match coin_of_wire(es.last()) {
                Ok(c) => Ok(init.push(c)),
                Err(e) => Err(e),
            },
        }
    }
}

pub open spec fn coins_of_wire(w: WireTree) -> Result<Seq<CoinModel>, DecodeError> {
    match w {
        WireTree::Arr(es) => coins_of_elems(es),
        _ => Err(DecodeError::TypeMismatch),
    }
}

pub open spec fn bank_of_wire(w: WireTree) -> Result<BankMsgModel, DecodeError> {
    match w {
        WireTree::Obj(fs) => {
            if fs.len() != 1 {
                Err(DecodeError::TypeMismatch)
            } else if fs[0].0 == "send"@ {
                match fs[0].1 {
                    WireTree::Obj(body) => {
                        if body.len() < 2 {
                            Err(DecodeError::MissingField)
                        } else if body.len() > 2 {
                            Err(DecodeError::TypeMismatch)
                        } else if body[0].0 != "to_address"@ {
                            Err(DecodeError::MissingField)
                        } else if body[1].0 != "amount"@ {
                            Err(DecodeError::MissingField)
                        } else {
                            match (text_of(body[0].1), coins_of_wire(body[1].1)) {
                                (Err(e), _) => Err(e),
                                (_, Err(e)) => Err(e),
                                (Ok(to_address), Ok(amount)) => Ok(
                                    BankMsgModel::Send { to_address, amount },
                                ),
                            }
                        }
                    },
                    _ => Err(DecodeError::TypeMismatch),
                }
            } else if fs[0].0 == "burn"@ {
                match fs[0].1 {
                    WireTree::Obj(body) => {
                        if body.len() < 1 {
                            Err(DecodeError::MissingField)
                        } else if body.len() > 1 {
                            Err(DecodeError::TypeMismatch)
                        } else if body[0].0 != "amount"@ {
                            Err(DecodeError::MissingField)
                        } else {
                            match coins_of_wire(body[0].1) {
                                Err(e) => Err(e),
                                Ok(amount) => Ok(BankMsgModel::Burn { amount }),
                            }
                        }
                    },
                    _ => Err(DecodeError::TypeMismatch),
                }
            } else {
                Err(DecodeError::UnknownTag)
            }
        },
        _ => Err(DecodeError::TypeMismatch),
    }
}

/// Decodes a `validator`/`amount` payload shared by delegate and
/// undelegate.
pub open spec fn validator_amount_of_wire(w: WireTree) -> Result<
    (Seq<char>, CoinModel),
    DecodeError,
> {
    match w {
        WireTree::Obj(body) => {
            if body.len() < 2 {
                Err(DecodeError::MissingField)
            } else if body.len() > 2 {
                Err(DecodeError::TypeMismatch)
            } else if body[0].0 != "validator"@ {
                Err(DecodeError::MissingField)
            } else if body[1].0 != "amount"@ {
                Err(DecodeError::MissingField)
            } else {
                match (text_of(body[0].1), coin_of_wire(body[1].1)) {
                    (Err(e), _) => Err(e),
                    (_, Err(e)) => Err(e),
                    (Ok(validator), Ok(amount)) => Ok((validator, amount)),
                }
            }
        },
        _ => Err(DecodeError::TypeMismatch),
    }
}

pub open spec fn staking_of_wire(w: WireTree) -> Result<StakingMsgModel, DecodeError> {
    match w {
        WireTree::Obj(fs) => {
            if fs.len() != 1 {
                Err(DecodeError::TypeMismatch)
            } else if fs[0].0 == "delegate"@ {
                match validator_amount_of_wire(fs[0].1) {
                    Err(e) => Err(e),
                    Ok((validator, amount)) => Ok(StakingMsgModel::Delegate { validator, amount }),
                }
            } else if fs[0].0 == "undelegate"@ {
                match validator_amount_of_wire(fs[0].1) {
                    Err(e) => Err(e),
                    Ok((validator, amount)) => Ok(
                        StakingMsgModel::Undelegate { validator, amount },
                    ),
                }
            } else if fs[0].0 == "redelegate"@ {
                match fs[0].1 {
                    WireTree::Obj(body) => {
                        if body.len() < 3 {
                            Err(DecodeError::MissingField)
                        } else if body.len() > 3 {
                            Err(DecodeError::TypeMismatch)
                        } else if body[0].0 != "src_validator"@ {
                            Err(DecodeError::MissingField)
                        } else if body[1].0 != "dst_validator"@ {
                            Err(DecodeError::MissingField)
                        } else if body[2].0 != "amount"@ {
                            Err(DecodeError::MissingField)
                        } else {
                            match (text_of(body[0].1), text_of(body[1].1), coin_of_wire(
                                body[2].1,
                            )) {
                                (Err(e), _, _) => Err(e),
                                (_, Err(e), _) => Err(e),
                                (_, _, Err(e)) => Err(e),
                                (Ok(src_validator), Ok(dst_validator), Ok(amount)) => Ok(
                                    StakingMsgModel::Redelegate {
                                        src_validator,
                                        dst_validator,
                                        amount,
                                    },
                                ),
                            }
                        }
                    },
                    _ => Err(DecodeError::TypeMismatch),
                }
            } else {
                Err(DecodeError::UnknownTag)
            }
        },
        _ => Err(DecodeError::TypeMismatch),
    }
}

pub open spec fn distribution_of_wire(w: WireTree) -> Result<DistributionMsgModel, DecodeError> {
    match w {
        WireTree::Obj(fs) => {
            if fs.len() != 1 {
                Err(DecodeError::TypeMismatch)
            } else if fs[0].0 == "set_withdraw_address"@ {
                match single_text_of_wire(fs[0].1, "address"@) {
                    Err(e) => Err(e),
                    Ok(address) => Ok(DistributionMsgModel::SetWithdrawAddress { address }),
                }
            } else if fs[0].0 == "withdraw_delegator_reward"@ {
                match single_text_of_wire(fs[0].1, "validator"@) {
                    Err(e) => Err(e),
                    Ok(validator) => Ok(
                        DistributionMsgModel::WithdrawDelegatorReward { validator },
                    ),
                }
            } else {
                Err(DecodeError::UnknownTag)
            }
        },
        _ => Err(DecodeError::TypeMismatch),
    }
}

/// Decodes an object of exactly one text field with the given name.
pub open spec fn single_text_of_wire(w: WireTree, name: Seq<char>) -> Result<
    Seq<char>,
    DecodeError,
> {
    match w {
        WireTree::Obj(body) => {
            if body.len() < 1 {
                Err(DecodeError::MissingField)
            } else if body.len() > 1 {
                Err(DecodeError::TypeMismatch)
            } else if body[0].0 != name {
                Err(DecodeError::MissingField)
            } else {
                text_of(body[0].1)
            }
        },
        _ => Err(DecodeError::TypeMismatch),
    }
}

pub open spec fn wasm_execute_of_wire(p: WireTree) -> Result<WasmMsgModel, DecodeError> {
    match p {
        WireTree::Obj(body) => {
            if body.len() < 4 {
                Err(DecodeError::MissingField)
            } else if body.len() > 5 {
                Err(DecodeError::TypeMismatch)
            } else if body[0].0 != "contract_addr"@ {
                Err(DecodeError::MissingField)
            } else if body[1].0 != "code_hash"@ {
                Err(DecodeError::MissingField)
            } else if body[2].0 != "msg"@ {
                Err(DecodeError::MissingField)
            } else if body[3].0 != "send"@ {
                Err(DecodeError::MissingField)
            } else if body.len() == 5 && body[4].0 != "callback_sig"@ {
                Err(DecodeError::MissingField)
            } else {
                match (text_of(body[0].1), text_of(body[1].1), bytes_of(body[2].1), coins_of_wire(
                    body[3].1,
                )) {
                    (Err(e), _, _, _) => Err(e),
                    (_, Err(e), _, _) => Err(e),
                    (_, _, Err(e), _) => Err(e),
                    (_, _, _, Err(e)) => Err(e),
                    (Ok(contract_addr), Ok(code_hash), Ok(msg), Ok(funds)) => {
                        if body.len() == 4 {
                            Ok(
                                WasmMsgModel::Execute {
                                    contract_addr,
                                    code_hash,
                                    msg,
                                    funds,
                                    callback_sig: None,
                                },
                            )
                        } else {
                            match bytes_of(body[4].1) {
                                Err(e) => Err(e),
                                Ok(sig) => Ok(
                                    WasmMsgModel::Execute {
                                        contract_addr,
                                        code_hash,
                                        msg,
                                        funds,
                                        callback_sig: Some(sig),
                                    },
                                ),
                            }
                        }
                    },
                }
            }
        },
        _ => Err(DecodeError::TypeMismatch),
    }
}

pub open spec fn wasm_instantiate_of_wire(p: WireTree) -> Result<WasmMsgModel, DecodeError> {
    match p {
        WireTree::Obj(body) => {
            if body.len() < 5 {
                Err(DecodeError::MissingField)
            } else if body.len() > 6 {
                Err(DecodeError::TypeMismatch)
            } else if body[0].0 != "code_id"@ {
                Err(DecodeError::MissingField)
            } else if body[1].0 != "code_hash"@ {
                Err(DecodeError::MissingField)
            } else if body[2].0 != "msg"@ {
                Err(DecodeError::MissingField)
            } else if body[3].0 != "send"@ {
                Err(DecodeError::MissingField)
            } else if body[4].0 != "label"@ {
                Err(DecodeError::MissingField)
            } else if body.len() == 6 && body[5].0 != "callback_sig"@ {
                Err(DecodeError::MissingField)
            } else {
                match (uint_of(body[0].1), text_of(body[1].1), bytes_of(body[2].1), coins_of_wire(
                    body[3].1,
                ), text_of(body[4].1)) {
                    (Err(e), _, _, _, _) => Err(e),
                    (_, Err(e), _, _, _) => Err(e),
                    (_, _, Err(e), _, _) => Err(e),
                    (_, _, _, Err(e), _) => Err(e),
                    (_, _, _, _, Err(e)) => Err(e),
                    (Ok(code_id), Ok(code_hash), Ok(msg), Ok(funds), Ok(label)) => {
                        if body.len() == 5 {
                            Ok(
                                WasmMsgModel::Instantiate {
                                    code_id,
                                    code_hash,
                                    msg,
                                    funds,
                                    label,
                                    callback_sig: None,
                                },
                            )
                        } else {
                            match bytes_of(body[5].1) {
                                Err(e) => Err(e),
                                Ok(sig) => Ok(
                                    WasmMsgModel::Instantiate {
                                        code_id,
                                        code_hash,
                                        msg,
                                        funds,
                                        label,
                                        callback_sig: Some(sig),
                                    },
                                ),
                            }
                        }
                    },
                }
            }
        },
        _ => Err(DecodeError::TypeMismatch),
    }
}

pub open spec fn wasm_of_wire(w: WireTree) -> Result<WasmMsgModel, DecodeError> {
    match w {
        WireTree::Obj(fs) => {
            if fs.len() != 1 {
                Err(DecodeError::TypeMismatch)
            } else if fs[0].0 == "execute"@ {
                wasm_execute_of_wire(fs[0].1)
            } else if fs[0].0 == "instantiate"@ {
                wasm_instantiate_of_wire(fs[0].1)
            } else {
                Err(DecodeError::UnknownTag)
            }
        },
        _ => Err(DecodeError::TypeMismatch),
    }
}

pub open spec fn vote_of_wire(w: WireTree) -> Result<VoteOption, DecodeError> {
    match w {
        WireTree::Text(s) => {
            if s == "yes"@ {
                Ok(VoteOption::Yes)
            } else if s == "no"@ {
                Ok(VoteOption::No)
            } else if s == "abstain"@ {
                Ok(VoteOption::Abstain)
            } else if s == "no_with_veto"@ {
                Ok(VoteOption::NoWithVeto)
            } else {
                Err(DecodeError::UnknownTag)
            }
        },
        _ => Err(DecodeError::TypeMismatch),
    }
}

pub open spec fn gov_of_wire(w: WireTree) -> Result<GovMsgModel, DecodeError> {
    match w {
        WireTree::Obj(fs) => {
            if fs.len() != 1 {
                Err(DecodeError::TypeMismatch)
            } else if fs[0].0 == "vote"@ {
                match fs[0].1 {
                    WireTree::Obj(body) => {
                        if body.len() < 2 {
                            Err(DecodeError::MissingField)
                        } else if body.len() > 2 {
                            Err(DecodeError::TypeMismatch)
                        } else if body[0].0 != "proposal_id"@ {
                            Err(DecodeError::MissingField)
                        } else if body[1].0 != "vote"@ {
                            Err(DecodeError::MissingField)
                        } else {
                            match (uint_of(body[0].1), vote_of_wire(body[1].1)) {
                                (Err(e), _) => Err(e),
                                (_, Err(e)) => Err(e),
                                (Ok(proposal_id), Ok(vote)) => Ok(
                                    GovMsgModel::Vote { proposal_id, vote },
                                ),
                            }
                        }
                    },
                    _ => Err(DecodeError::TypeMismatch),
                }
            } else {
                Err(DecodeError::UnknownTag)
            }
        },
        _ => Err(DecodeError::TypeMismatch),
    }
}

pub open spec fn stargate_of_wire(w: WireTree) -> Result<(Seq<char>, Seq<u8>), DecodeError> {
    match w {
        WireTree::Obj(body) => {
            if body.len() < 2 {
                Err(DecodeError::MissingField)
            } else if body.len() > 2 {
                Err(DecodeError::TypeMismatch)
            } else if body[0].0 != "type_url"@ {
                Err(DecodeError::MissingField)
            } else if body[1].0 != "value"@ {
                Err(DecodeError::MissingField)
            } else {
                match (text_of(body[0].1), bytes_of(body[1].1)) {
                    (Err(e), _) => Err(e),
                    (_, Err(e)) => Err(e),
                    (Ok(type_url), Ok(value)) => Ok((type_url, value)),
                }
            }
        },
        _ => Err(DecodeError::TypeMismatch),
    }
}

pub open spec fn custom_of_wire(w: WireTree) -> Result<Empty, DecodeError> {
    match w {
        WireTree::Obj(body) => {
            if body.len() == 0 {
                Ok(Empty {  })
            } else {
                Err(DecodeError::TypeMismatch)
            }
        },
        _ => Err(DecodeError::TypeMismatch),
    }
}

/// The envelope a wire tree decodes to under the given capability set.
pub open spec fn msg_of_wire(w: WireTree, caps: CapabilitySet) -> Result<
    CosmosMsgModel<Empty>,
    DecodeError,
> {
    match w {
        WireTree::Obj(fs) => {
            if fs.len() != 1 {
                Err(DecodeError::TypeMismatch)
            } else if fs[0].0 == "bank"@ {
                match bank_of_wire(fs[0].1) {
                    Err(e) => Err(e),
                    Ok(b) => Ok(CosmosMsgModel::Bank(b)),
                }
            } else if fs[0].0 == "custom"@ {
                match custom_of_wire(fs[0].1) {
                    Err(e) => Err(e),
                    Ok(c) => Ok(CosmosMsgModel::Custom(c)),
                }
            } else if fs[0].0 == "staking"@ && caps.staking {
                match staking_of_wire(fs[0].1) {
                    Err(e) => Err(e),
                    Ok(s) => Ok(CosmosMsgModel::Staking(s)),
                }
            } else if fs[0].0 == "distribution"@ && caps.staking {
                match distribution_of_wire(fs[0].1) {
                    Err(e) => Err(e),
                    Ok(d) => Ok(CosmosMsgModel::Distribution(d)),
                }
            } else if fs[0].0 == "stargate"@ && caps.stargate {
                match stargate_of_wire(fs[0].1) {
                    Err(e) => Err(e),
                    Ok((type_url, value)) => Ok(CosmosMsgModel::Stargate { type_url, value }),
                }
            } else if fs[0].0 == "wasm"@ {
                match wasm_of_wire(fs[0].1) {
                    Err(e) => Err(e),
                    Ok(m) => Ok(CosmosMsgModel::Wasm(m)),
                }
            } else if fs[0].0 == "gov"@ && caps.stargate {
                match gov_of_wire(fs[0].1) {
                    Err(e) => Err(e),
                    Ok(g) => Ok(CosmosMsgModel::Gov(g)),
                }
            } else {
                Err(DecodeError::UnknownTag)
            }
        },
        _ => Err(DecodeError::TypeMismatch),
    }
}

// ---------------------------------------------------------------------
// Encoding: builds the wire tree of a message.
// ---------------------------------------------------------------------

/// Copies a byte sequence into a fresh vector.
fn clone_bytes(v: &Vec<u8>) -> (r: Vec<u8>)
    ensures
        r@ == v@,
{
    let mut r: Vec<u8> = Vec::new();
    let mut i: usize = 0;
    while i < v.len()
        invariant
            i <= v@.len(),
            r@ == v@.take(i as int),
        decreases v@.len() - i,
    {
        r.push(v[i]);
        i += 1;
        proof {
            assert(r@ =~= v@.take(i as int));
        }
    }
    proof {
        assert(v@.take(v@.len() as int) =~= v@);
    }
    r
}

/// Wraps a payload in a one-field object carrying the given tag.
fn wrap(tag: &str, payload: WireValue) -> (r: WireValue)
    ensures
        r@ == WireTree::Obj(seq![(tag@, payload@)]),
{
    let ghost p = payload@;
    let mut fields: Vec<(String, WireValue)> = Vec::new();
    fields.push((tag.to_owned(), payload));
    let r = WireValue::Obj(fields);
    proof {
        crate::wire::lemma_wire_obj(fields, r);
        assert(r@->Obj_0 =~~= seq![(tag@, p)]);
        assert(r@ == WireTree::Obj(seq![(tag@, p)]));
    }
    r
}

pub fn encode_coin(c: &Coin) -> (r: WireValue)
    ensures
        r@ == coin_wire(c@),
{
    let mut fields: Vec<(String, WireValue)> = Vec::new();
    fields.push(("denom".to_owned(), WireValue::Text(c.denom.clone())));
    fields.push(("amount".to_owned(), WireValue::Text(c.amount.clone())));
    let r = WireValue::Obj(fields);
    proof {
        crate::wire::lemma_wire_obj(fields, r);
        assert(r@->Obj_0 =~~= (coin_wire(c@))->Obj_0);
        assert(r@ == (coin_wire(c@)));
    }
    r
}

pub fn encode_coins(cs: &Vec<Coin>) -> (r: WireValue)
    ensures
        r@ == coins_wire(cs.deep_view()),
{
    let mut elems: Vec<WireValue> = Vec::new();
    let mut i: usize = 0;
    while i < cs.len()
        invariant
            i <= cs@.len(),
            elems@.len() == i,
            forall|j: int| 0 <= j < i as int ==> (#[trigger] elems@[j])@ == coin_wire(
                cs.deep_view()[j],
            ),
        decreases cs@.len() - i,
    {
        let node = encode_coin(&cs[i]);
        elems.push(node);
        i += 1;
    }
    let r = WireValue::Arr(elems);
    proof {
        crate::wire::lemma_wire_arr(elems, r);
        assert(r@->Arr_0 =~~= (coins_wire(cs.deep_view()))->Arr_0);
        assert(r@ == (coins_wire(cs.deep_view())));
    }
    r
}

pub fn encode_bank(m: &BankMsg) -> (r: WireValue)
    ensures
        r@ == bank_wire(m@),
{
    match m {
        BankMsg::Send { to_address, amount } => {
            let mut body: Vec<(String, WireValue)> = Vec::new();
            body.push(("to_address".to_owned(), WireValue::Text(to_address.clone())));
            body.push(("amount".to_owned(), encode_coins(amount)));
            let inner = WireValue::Obj(body);
            proof {
                crate::wire::lemma_wire_obj(body, inner);
                assert(inner@->Obj_0 =~~= (
                    seq![
                        ("to_address"@, WireTree::Text(to_address@)),
                        ("amount"@, coins_wire(amount.deep_view())),
                    ]));
                assert(inner@ == (WireTree::Obj(
                    seq![
                        ("to_address"@, WireTree::Text(to_address@)),
                        ("amount"@, coins_wire(amount.deep_view())),
                    ],
                )));
            }
            wrap("send", inner)
        },
        BankMsg::Burn { amount } => {
            let mut body: Vec<(String, WireValue)> = Vec::new();
            body.push(("amount".to_owned(), encode_coins(amount)));
            let inner = WireValue::Obj(body);
            proof {
                crate::wire::lemma_wire_obj(body, inner);
                assert(inner@->Obj_0 =~~= (
                    seq![("amount"@, coins_wire(amount.deep_view()))]));
                assert(inner@ == (WireTree::Obj(
                    seq![("amount"@, coins_wire(amount.deep_view()))],
                )));
            }
            wrap("burn", inner)
        },
    }
}

pub fn encode_staking(m: &StakingMsg) -> (r: WireValue)
    ensures
        r@ == staking_wire(m@),
{
    match m {
        StakingMsg::Delegate { validator, amount } => {
            let mut body: Vec<(String, WireValue)> = Vec::new();
            body.push(("validator".to_owned(), WireValue::Text(validator.clone())));
            body.push(("amount".to_owned(), encode_coin(amount)));
            let inner = WireValue::Obj(body);
            proof {
                crate::wire::lemma_wire_obj(body, inner);
                assert(inner@->Obj_0 =~~= (
                    seq![
                        ("validator"@, WireTree::Text(validator@)),
                        ("amount"@, coin_wire(amount@)),
                    ]));
                assert(inner@ == (WireTree::Obj(
                    seq![
                        ("validator"@, WireTree::Text(validator@)),
                        ("amount"@, coin_wire(amount@)),
                    ],
                )));
            }
            wrap("delegate", inner)
        },
        StakingMsg::Undelegate { validator, amount } => {
            let mut body: Vec<(String, WireValue)> = Vec::new();
            body.push(("validator".to_owned(), WireValue::Text(validator.clone())));
            body.push(("amount".to_owned(), encode_coin(amount)));
            let inner = WireValue::Obj(body);
            proof {
                crate::wire::lemma_wire_obj(body, inner);
                assert(inner@->Obj_0 =~~= (
                    seq![
                        ("validator"@, WireTree::Text(validator@)),
                        ("amount"@, coin_wire(amount@)),
                    ]));
                assert(inner@ == (WireTree::Obj(
                    seq![
                        ("validator"@, WireTree::Text(validator@)),
                        ("amount"@, coin_wire(amount@)),
                    ],
                )));
            }
            wrap("undelegate", inner)
        },
        StakingMsg::Redelegate { src_validator, dst_validator, amount } => {
            let mut body: Vec<(String, WireValue)> = Vec::new();
            body.push(("src_validator".to_owned(), WireValue::Text(src_validator.clone())));
            body.push(("dst_validator".to_owned(), WireValue::Text(dst_validator.clone())));
            body.push(("amount".to_owned(), encode_coin(amount)));
            let inner = WireValue::Obj(body);
            proof {
                crate::wire::lemma_wire_obj(body, inner);
                assert(inner@->Obj_0 =~~= (
                    seq![
                        ("src_validator"@, WireTree::Text(src_validator@)),
                        ("dst_validator"@, WireTree::Text(dst_validator@)),
                        ("amount"@, coin_wire(amount@)),
                    ]));
                assert(inner@ == (WireTree::Obj(
                    seq![
                        ("src_validator"@, WireTree::Text(src_validator@)),
                        ("dst_validator"@, WireTree::Text(dst_validator@)),
                        ("amount"@, coin_wire(amount@)),
                    ],
                )));
            }
            wrap("redelegate", inner)
        },
    }
}

pub fn encode_distribution(m: &DistributionMsg) -> (r: WireValue)
    ensures
        r@ == distribution_wire(m@),
{
    match m {
        DistributionMsg::SetWithdrawAddress { address } => {
            let mut body: Vec<(String, WireValue)> = Vec::new();
            body.push(("address".to_owned(), WireValue::Text(address.clone())));
            let inner = WireValue::Obj(body);
            proof {
                crate::wire::lemma_wire_obj(body, inner);
                assert(inner@->Obj_0 =~~= (seq![("address"@, WireTree::Text(address@))]));
                assert(inner@ == (WireTree::Obj(seq![("address"@, WireTree::Text(address@))])));
            }
            wrap("set_withdraw_address", inner)
        },
        DistributionMsg::WithdrawDelegatorReward { validator } => {
            let mut body: Vec<(String, WireValue)> = Vec::new();
            body.push(("validator".to_owned(), WireValue::Text(validator.clone())));
            let inner = WireValue::Obj(body);
            proof {
                crate::wire::lemma_wire_obj(body, inner);
                assert(inner@->Obj_0 =~~= (
                    seq![("validator"@, WireTree::Text(validator@))]));
                assert(inner@ == (WireTree::Obj(
                    seq![("validator"@, WireTree::Text(validator@))],
                )));
            }
            wrap("withdraw_delegator_reward", inner)
        },
    }
}

pub fn encode_wasm(m: &WasmMsg) -> (r: WireValue)
    ensures
        r@ == wasm_wire(m@),
{
    match m {
        WasmMsg::Execute { contract_addr, code_hash, msg, funds, callback_sig } => {
            let mut body: Vec<(String, WireValue)> = Vec::new();
            body.push(("contract_addr".to_owned(), WireValue::Text(contract_addr.clone())));
            body.push(("code_hash".to_owned(), WireValue::Text(code_hash.clone())));
            body.push(("msg".to_owned(), WireValue::Bytes(clone_bytes(&msg.0))));
            body.push(("send".to_owned(), encode_coins(funds)));
            match callback_sig {
                None => {},
                Some(sig) => {
                    body.push(("callback_sig".to_owned(), WireValue::Bytes(clone_bytes(sig))));
                    proof {
                        assert(sig.deep_view() =~= sig@);
                    }
                },
            }
            let inner = WireValue::Obj(body);
            proof {
                crate::wire::lemma_wire_obj(body, inner);
                assert(inner@->Obj_0 =~~= (wasm_wire(m@)->Obj_0[0].1)->Obj_0);
                assert(inner@ == (wasm_wire(m@)->Obj_0[0].1));
            }
            wrap("execute", inner)
        },
        WasmMsg::Instantiate { code_id, code_hash, msg, funds, label, callback_sig } => {
            let mut body: Vec<(String, WireValue)> = Vec::new();
            body.push(("code_id".to_owned(), WireValue::Uint(*code_id)));
            body.push(("code_hash".to_owned(), WireValue::Text(code_hash.clone())));
            body.push(("msg".to_owned(), WireValue::Bytes(clone_bytes(&msg.0))));
            body.push(("send".to_owned(), encode_coins(funds)));
            body.push(("label".to_owned(), WireValue::Text(label.clone())));
            match callback_sig {
                None => {},
                Some(sig) => {
                    body.push(("callback_sig".to_owned(), WireValue::Bytes(clone_bytes(sig))));
                    proof {
                        assert(sig.deep_view() =~= sig@);
                    }
                },
            }
            let inner = WireValue::Obj(body);
            proof {
                crate::wire::lemma_wire_obj(body, inner);
                assert(inner@->Obj_0 =~~= (wasm_wire(m@)->Obj_0[0].1)->Obj_0);
                assert(inner@ == (wasm_wire(m@)->Obj_0[0].1));
            }
            wrap("instantiate", inner)
        },
    }
}

pub fn encode_vote(v: &VoteOption) -> (r: WireValue)
    ensures
        r@ == vote_wire(*v),
{
    match v {
        VoteOption::Yes => WireValue::Text("yes".to_owned()),
        VoteOption::No => WireValue::Text("no".to_owned()),
        VoteOption::Abstain => WireValue::Text("abstain".to_owned()),
        VoteOption::NoWithVeto => WireValue::Text("no_with_veto".to_owned()),
    }
}

pub fn encode_gov(m: &GovMsg) -> (r: WireValue)
    ensures
        r@ == gov_wire(m@),
{
    match m {
        GovMsg::Vote { proposal_id, vote } => {
            let mut body: Vec<(String, WireValue)> = Vec::new();
            body.push(("proposal_id".to_owned(), WireValue::Uint(*proposal_id)));
            body.push(("vote".to_owned(), encode_vote(vote)));
            let inner = WireValue::Obj(body);
            proof {
                crate::wire::lemma_wire_obj(body, inner);
                assert(inner@->Obj_0 =~~= (
                    seq![
                        ("proposal_id"@, WireTree::Uint(*proposal_id)),
                        ("vote"@, vote_wire(*vote)),
                    ]));
                assert(inner@ == (WireTree::Obj(
                    seq![
                        ("proposal_id"@, WireTree::Uint(*proposal_id)),
                        ("vote"@, vote_wire(*vote)),
                    ],
                )));
            }
            wrap("vote", inner)
        },
    }
}

/// Encodes an envelope to its wire tree.
pub fn encode_msg(m: &CosmosMsg<Empty>) -> (r: WireValue)
    ensures
        r@ == msg_wire(m@),
{
    match m {
        CosmosMsg::Bank(b) => wrap("bank", encode_bank(b)),
        CosmosMsg::Custom(_) => {
            let empty_body: Vec<(String, WireValue)> = Vec::new();
            let inner = WireValue::Obj(empty_body);
            proof {
                crate::wire::lemma_wire_obj(empty_body, inner);
                assert(inner@->Obj_0 =~~= (Seq::<(Seq<char>, WireTree)>::empty()));
                assert(inner@ == (WireTree::Obj(Seq::<(Seq<char>, WireTree)>::empty())));
            }
            wrap("custom", inner)
        },
        CosmosMsg::Staking(s) => wrap("staking", encode_staking(s)),
        CosmosMsg::Distribution(d) => wrap("distribution", encode_distribution(d)),
        CosmosMsg::Stargate { type_url, value } => {
            let mut body: Vec<(String, WireValue)> = Vec::new();
            body.push(("type_url".to_owned(), WireValue::Text(type_url.clone())));
            body.push(("value".to_owned(), WireValue::Bytes(clone_bytes(&value.0))));
            let inner = WireValue::Obj(body);
            proof {
                crate::wire::lemma_wire_obj(body, inner);
                assert(inner@->Obj_0 =~~= (
                    seq![
                        ("type_url"@, WireTree::Text(type_url@)),
                        ("value"@, WireTree::Bytes(value@)),
                    ]));
                assert(inner@ == (WireTree::Obj(
                    seq![
                        ("type_url"@, WireTree::Text(type_url@)),
                        ("value"@, WireTree::Bytes(value@)),
                    ],
                )));
            }
            wrap("stargate", inner)
        },
        CosmosMsg::Wasm(w) => wrap("wasm", encode_wasm(w)),
        CosmosMsg::Gov(g) => wrap("gov", encode_gov(g)),
    }
}

// ---------------------------------------------------------------------
// Decoding: rebuilds the message a wire tree carries.
// ---------------------------------------------------------------------

/// String comparison with an exact contract.
fn str_eq(a: &str, b: &str) -> (r: bool)
    ensures
        r == (a@ == b@),
{
    let x = a.to_owned();
    let y = b.to_owned();
    x == y
}

fn text_value(w: &WireValue) -> (r: Result<String, DecodeError>)
    ensures
        match r {
            Ok(s) => text_of(w@) == Ok::<Seq<char>, DecodeError>(s@),
            Err(e) => text_of(w@) == Err::<Seq<char>, DecodeError>(e),
        },
{
    match w {
        WireValue::Text(s) => Ok(s.clone()),
        _ => Err(DecodeError::TypeMismatch),
    }
}

fn bytes_value(w: &WireValue) -> (r: Result<Vec<u8>, DecodeError>)
    ensures
        match r {
            Ok(b) => bytes_of(w@) == Ok::<Seq<u8>, DecodeError>(b@),
            Err(e) => bytes_of(w@) == Err::<Seq<u8>, DecodeError>(e),
        },
{
    match w {
        WireValue::Bytes(b) => Ok(clone_bytes(b)),
        _ => Err(DecodeError::TypeMismatch),
    }
}

fn uint_value(w: &WireValue) -> (r: Result<u64, DecodeError>)
    ensures
        match r {
            Ok(n) => uint_of(w@) == Ok::<u64, DecodeError>(n),
            Err(e) => uint_of(w@) == Err::<u64, DecodeError>(e),
        },
{
    match w {
        WireValue::Uint(n) => Ok(*n),
        _ => Err(DecodeError::TypeMismatch),
    }
}

pub fn decode_coin(w: &WireValue) -> (r: Result<Coin, DecodeError>)
    ensures
        match r {
            Ok(c) => coin_of_wire(w@) == Ok::<CoinModel, DecodeError>(c@),
            Err(e) => coin_of_wire(w@) == Err::<CoinModel, DecodeError>(e),
        },
{
    match w {
        WireValue::Obj(fields) => {
            proof {
                crate::wire::lemma_wire_obj(*fields, *w);
            }
            if fields.len() < 2 {
                return Err(DecodeError::MissingField);
            }
            if fields.len() > 2 {
                return Err(DecodeError::TypeMismatch);
            }
            if !str_eq(fields[0].0.as_str(), "denom") {
                return Err(DecodeError::MissingField);
            }
            if !str_eq(fields[1].0.as_str(), "amount") {
                return Err(DecodeError::MissingField);
            }
            let denom = match text_value(&fields[0].1) {
                Ok(s) => s,
                Err(e) => return Err(e),
            };
            let amount = match text_value(&fields[1].1) {
                Ok(s) => s,
                Err(e) => return Err(e),
            };
            Ok(Coin { denom, amount })
        },
        _ => Err(DecodeError::TypeMismatch),
    }
}

/// An error in a prefix of the elements decides the whole array.
proof fn lemma_coins_of_elems_prefix_err(es: Seq<WireTree>, k: int)
    requires
        0 <= k <= es.len(),
        coins_of_elems(es.take(k)) is Err,
    ensures
        coins_of_elems(es) == coins_of_elems(es.take(k)),
    decreases es.len() - k,
{
    if k == es.len() {
        assert(es.take(k) =~= es);
    } else {
        assert(es.take(k + 1).drop_last() =~= es.take(k));
        lemma_coins_of_elems_prefix_err(es, k + 1);
    }
}

pub fn decode_coins(w: &WireValue) -> (r: Result<Vec<Coin>, DecodeError>)
    ensures
        match r {
            Ok(cs) => coins_of_wire(w@) == Ok::<Seq<CoinModel>, DecodeError>(cs.deep_view()),
            Err(e) => coins_of_wire(w@) == Err::<Seq<CoinModel>, DecodeError>(e),
        },
{
    match w {
        WireValue::Arr(elems) => {
            proof {
                crate::wire::lemma_wire_arr(*elems, *w);
            }
            let ghost full = w@->Arr_0;
            let mut out: Vec<Coin> = Vec::new();
            let mut i: usize = 0;
            proof {
                assert(full.take(0) =~= Seq::<WireTree>::empty());
                assert(out.deep_view() =~= Seq::<CoinModel>::empty());
            }
            while i < elems.len()
                invariant
                    i <= elems@.len(),
                    w@ == WireTree::Arr(full),
                    full.len() == elems@.len(),
                    forall|j: int|
                        0 <= j < elems@.len() ==> full[j] == (#[trigger] elems@[j]).wire(),
                    coins_of_elems(full.take(i as int)) == Ok::<Seq<CoinModel>, DecodeError>(
                        out.deep_view(),
                    ),
                decreases elems@.len() - i,
            {
                let ghost prev = out.deep_view();
                let c = match decode_coin(&elems[i]) {
                    Ok(c) => c,
                    Err(e) => {
                        proof {
                            assert(full.take(i as int + 1).drop_last() =~= full.take(i as int));
                            assert(coins_of_elems(full.take(i as int + 1)) == Err::<
                                Seq<CoinModel>,
                                DecodeError,
                            >(e));
                            lemma_coins_of_elems_prefix_err(full, i as int + 1);
                        }
                        return Err(e);
                    },
                };
                out.push(c);
                i += 1;
                proof {
                    assert(full.take(i as int).drop_last() =~= full.take(i as int - 1));
                    assert(out.deep_view() =~= prev.push(c@));
                }
            }
            proof {
                assert(full.take(elems@.len() as int) =~= full);
            }
            Ok(out)
        },
        _ => Err(DecodeError::TypeMismatch),
    }
}

pub fn decode_bank(w: &WireValue) -> (r: Result<BankMsg, DecodeError>)
    ensures
        match r {
            Ok(m) => bank_of_wire(w@) == Ok::<BankMsgModel, DecodeError>(m@),
            Err(e) => bank_of_wire(w@) == Err::<BankMsgModel, DecodeError>(e),
        },
{
    match w {
        WireValue::Obj(fields) => {
            proof {
                crate::wire::lemma_wire_obj(*fields, *w);
            }
            if fields.len() != 1 {
                return Err(DecodeError::TypeMismatch);
            }
            if str_eq(fields[0].0.as_str(), "send") {
                match &fields[0].1 {
                    WireValue::Obj(body) => {
                        proof {
                            crate::wire::lemma_wire_obj(*body, fields@[0].1);
                        }
                        if body.len() < 2 {
                            return Err(DecodeError::MissingField);
                        }
                        if body.len() > 2 {
                            return Err(DecodeError::TypeMismatch);
                        }
                        if !str_eq(body[0].0.as_str(), "to_address") {
                            return Err(DecodeError::MissingField);
                        }
                        if !str_eq(body[1].0.as_str(), "amount") {
                            return Err(DecodeError::MissingField);
                        }
                        let to_address = match text_value(&body[0].1) {
                            Ok(s) => s,
                            Err(e) => return Err(e),
                        };
                        let amount = match decode_coins(&body[1].1) {
                            Ok(cs) => cs,
                            Err(e) => return Err(e),
                        };
                        Ok(BankMsg::Send { to_address, amount })
                    },
                    _ => Err(DecodeError::TypeMismatch),
                }
            } else if str_eq(fields[0].0.as_str(), "burn") {
                match &fields[0].1 {
                    WireValue::Obj(body) => {
                        proof {
                            crate::wire::lemma_wire_obj(*body, fields@[0].1);
                        }
                        if body.len() < 1 {
                            return Err(DecodeError::MissingField);
                        }
                        if body.len() > 1 {
                            return Err(DecodeError::TypeMismatch);
                        }
                        if !str_eq(body[0].0.as_str(), "amount") {
                            return Err(DecodeError::MissingField);
                        }
                        let amount = match decode_coins(&body[0].1) {
                            Ok(cs) => cs,
                            Err(e) => return Err(e),
                        };
                        Ok(BankMsg::Burn { amount })
                    },
                    _ => Err(DecodeError::TypeMismatch),
                }
            } else {
                Err(DecodeError::UnknownTag)
            }
        },
        _ => Err(DecodeError::TypeMismatch),
    }
}

/// Decodes the shared `validator`/`amount` payload of delegate and
/// undelegate.
fn decode_validator_amount(w: &WireValue) -> (r: Result<(String, Coin), DecodeError>)
    ensures
        match r {
            Ok(p) => validator_amount_of_wire(w@) == Ok::<(Seq<char>, CoinModel), DecodeError>(
                (p.0@, p.1@),
            ),
            Err(e) => validator_amount_of_wire(w@) == Err::<(Seq<char>, CoinModel), DecodeError>(
                e,
            ),
        },
{
    match w {
        WireValue::Obj(body) => {
            proof {
                crate::wire::lemma_wire_obj(*body, *w);
            }
            if body.len() < 2 {
                return Err(DecodeError::MissingField);
            }
            if body.len() > 2 {
                return Err(DecodeError::TypeMismatch);
            }
            if !str_eq(body[0].0.as_str(), "validator") {
                return Err(DecodeError::MissingField);
            }
            if !str_eq(body[1].0.as_str(), "amount") {
                return Err(DecodeError::MissingField);
            }
            let validator = match text_value(&body[0].1) {
                Ok(s) => s,
                Err(e) => return Err(e),
            };
            let amount = match decode_coin(&body[1].1) {
                Ok(c) => c,
                Err(e) => return Err(e),
            };
            Ok((validator, amount))
        },
        _ => Err(DecodeError::TypeMismatch),
    }
}

pub fn decode_staking(w: &WireValue) -> (r: Result<StakingMsg, DecodeError>)
    ensures
        match r {
            Ok(m) => staking_of_wire(w@) == Ok::<StakingMsgModel, DecodeError>(m@),
            Err(e) => staking_of_wire(w@) == Err::<StakingMsgModel, DecodeError>(e),
        },
{
    match w {
        WireValue::Obj(fields) => {
            proof {
                crate::wire::lemma_wire_obj(*fields, *w);
            }
            if fields.len() != 1 {
                return Err(DecodeError::TypeMismatch);
            }
            if str_eq(fields[0].0.as_str(), "delegate") {
                match decode_validator_amount(&fields[0].1) {
                    Ok((validator, amount)) => Ok(StakingMsg::Delegate { validator, amount }),
                    Err(e) => Err(e),
                }
            } else if str_eq(fields[0].0.as_str(), "undelegate") {
                match decode_validator_amount(&fields[0].1) {
                    Ok((validator, amount)) => Ok(StakingMsg::Undelegate { validator, amount }),
                    Err(e) => Err(e),
                }
            } else if str_eq(fields[0].0.as_str(), "redelegate") {
                match &fields[0].1 {
                    WireValue::Obj(body) => {
                        proof {
                            crate::wire::lemma_wire_obj(*body, fields@[0].1);
                        }
                        if body.len() < 3 {
                            return Err(DecodeError::MissingField);
                        }
                        if body.len() > 3 {
                            return Err(DecodeError::TypeMismatch);
                        }
                        if !str_eq(body[0].0.as_str(), "src_validator") {
                            return Err(DecodeError::MissingField);
                        }
                        if !str_eq(body[1].0.as_str(), "dst_validator") {
                            return Err(DecodeError::MissingField);
                        }
                        if !str_eq(body[2].0.as_str(), "amount") {
                            return Err(DecodeError::MissingField);
                        }
                        let src_validator = match text_value(&body[0].1) {
                            Ok(s) => s,
                            Err(e) => return Err(e),
                        };
                        let dst_validator = match text_value(&body[1].1) {
                            Ok(s) => s,
                            Err(e) => return Err(e),
                        };
                        let amount = match decode_coin(&body[2].1) {
                            Ok(c) => c,
                            Err(e) => return Err(e),
                        };
                        Ok(StakingMsg::Redelegate { src_validator, dst_validator, amount })
                    },
                    _ => Err(DecodeError::TypeMismatch),
                }
            } else {
                Err(DecodeError::UnknownTag)
            }
        },
        _ => Err(DecodeError::TypeMismatch),
    }
}

/// Decodes an object of exactly one text field with the given name.
fn decode_single_text(w: &WireValue, name: &str) -> (r: Result<String, DecodeError>)
    ensures
        match r {
            Ok(s) => single_text_of_wire(w@, name@) == Ok::<Seq<char>, DecodeError>(s@),
            Err(e) => single_text_of_wire(w@, name@) == Err::<Seq<char>, DecodeError>(e),
        },
{
    match w {
        WireValue::Obj(body) => {
            proof {
                crate::wire::lemma_wire_obj(*body, *w);
            }
            if body.len() < 1 {
                return Err(DecodeError::MissingField);
            }
            if body.len() > 1 {
                return Err(DecodeError::TypeMismatch);
            }
            if !str_eq(body[0].0.as_str(), name) {
                return Err(DecodeError::MissingField);
            }
            text_value(&body[0].1)
        },
        _ => Err(DecodeError::TypeMismatch),
    }
}

pub fn decode_distribution(w: &WireValue) -> (r: Result<DistributionMsg, DecodeError>)
    ensures
        match r {
            Ok(m) => distribution_of_wire(w@) == Ok::<DistributionMsgModel, DecodeError>(m@),
            Err(e) => distribution_of_wire(w@) == Err::<DistributionMsgModel, DecodeError>(e),
        },
{
    match w {
        WireValue::Obj(fields) => {
            proof {
                crate::wire::lemma_wire_obj(*fields, *w);
            }
            if fields.len() != 1 {
                return Err(DecodeError::TypeMismatch);
            }
            if str_eq(fields[0].0.as_str(), "set_withdraw_address") {
                match decode_single_text(&fields[0].1, "address") {
                    Ok(address) => Ok(DistributionMsg::SetWithdrawAddress { address }),
                    Err(e) => Err(e),
                }
            } else if str_eq(fields[0].0.as_str(), "withdraw_delegator_reward") {
                match decode_single_text(&fields[0].1, "validator") {
                    Ok(validator) => Ok(DistributionMsg::WithdrawDelegatorReward { validator }),
                    Err(e) => Err(e),
                }
            } else {
                Err(DecodeError::UnknownTag)
            }
        },
        _ => Err(DecodeError::TypeMismatch),
    }
}

fn decode_wasm_execute(p: &WireValue) -> (r: Result<WasmMsg, DecodeError>)
    ensures
        match r {
            Ok(m) => wasm_execute_of_wire(p@) == Ok::<WasmMsgModel, DecodeError>(m@),
            Err(e) => wasm_execute_of_wire(p@) == Err::<WasmMsgModel, DecodeError>(e),
        },
{
    match p {
        WireValue::Obj(body) => {
            proof {
                crate::wire::lemma_wire_obj(*body, *p);
            }
            if body.len() < 4 {
                return Err(DecodeError::MissingField);
            }
            if body.len() > 5 {
                return Err(DecodeError::TypeMismatch);
            }
            if !str_eq(body[0].0.as_str(), "contract_addr") {
                return Err(DecodeError::MissingField);
            }
            if !str_eq(body[1].0.as_str(), "code_hash") {
                return Err(DecodeError::MissingField);
            }
            if !str_eq(body[2].0.as_str(), "msg") {
                return Err(DecodeError::MissingField);
            }
            if !str_eq(body[3].0.as_str(), "send") {
                return Err(DecodeError::MissingField);
            }
            if body.len() == 5 && !str_eq(body[4].0.as_str(), "callback_sig") {
                return Err(DecodeError::MissingField);
            }
            let contract_addr = match text_value(&body[0].1) {
                Ok(s) => s,
                Err(e) => return Err(e),
            };
            let code_hash = match text_value(&body[1].1) {
                Ok(s) => s,
                Err(e) => return Err(e),
            };
            let msg = match bytes_value(&body[2].1) {
                Ok(b) => b,
                Err(e) => return Err(e),
            };
            let funds = match decode_coins(&body[3].1) {
                Ok(cs) => cs,
                Err(e) => return Err(e),
            };
            let callback_sig = if body.len() == 5 {
                match bytes_value(&body[4].1) {
                    Ok(b) => Some(b),
                    Err(e) => return Err(e),
                }
            } else {
                None
            };
            let r = WasmMsg::Execute {
                contract_addr,
                code_hash,
                msg: crate::msg::Binary(msg),
                funds,
                callback_sig,
            };
            proof {
                assert(r@ =~~= (wasm_execute_of_wire(p@)->Ok_0));
            }
            Ok(r)
        },
        _ => Err(DecodeError::TypeMismatch),
    }
}

fn decode_wasm_instantiate(p: &WireValue) -> (r: Result<WasmMsg, DecodeError>)
    ensures
        match r {
            Ok(m) => wasm_instantiate_of_wire(p@) == Ok::<WasmMsgModel, DecodeError>(m@),
            Err(e) => wasm_instantiate_of_wire(p@) == Err::<WasmMsgModel, DecodeError>(e),
        },
{
    match p {
        WireValue::Obj(body) => {
            proof {
                crate::wire::lemma_wire_obj(*body, *p);
            }
            if body.len() < 5 {
                return Err(DecodeError::MissingField);
            }
            if body.len() > 6 {
                return Err(DecodeError::TypeMismatch);
            }
            if !str_eq(body[0].0.as_str(), "code_id") {
                return Err(DecodeError::MissingField);
            }
            if !str_eq(body[1].0.as_str(), "code_hash") {
                return Err(DecodeError::MissingField);
            }
            if !str_eq(body[2].0.as_str(), "msg") {
                return Err(DecodeError::MissingField);
            }
            if !str_eq(body[3].0.as_str(), "send") {
                return Err(DecodeError::MissingField);
            }
            if !str_eq(body[4].0.as_str(), "label") {
                return Err(DecodeError::MissingField);
            }
            if body.len() == 6 && !str_eq(body[5].0.as_str(), "callback_sig") {
                return Err(DecodeError::MissingField);
            }
            let code_id = match uint_value(&body[0].1) {
                Ok(n) => n,
                Err(e) => return Err(e),
            };
            let code_hash = match text_value(&body[1].1) {
                Ok(s) => s,
                Err(e) => return Err(e),
            };
            let msg = match bytes_value(&body[2].1) {
                Ok(b) => b,
                Err(e) => return Err(e),
            };
            let funds = match decode_coins(&body[3].1) {
                Ok(cs) => cs,
                Err(e) => return Err(e),
            };
            let label = match text_value(&body[4].1) {
                Ok(s) => s,
                Err(e) => return Err(e),
            };
            let callback_sig = if body.len() == 6 {
                match bytes_value(&body[5].1) {
                    Ok(b) => Some(b),
                    Err(e) => return Err(e),
                }
            } else {
                None
            };
            let r = WasmMsg::Instantiate {
                code_id,
                code_hash,
                msg: crate::msg::Binary(msg),
                funds,
                label,
                callback_sig,
            };
            proof {
                assert(r@ =~~= (wasm_instantiate_of_wire(p@)->Ok_0));
            }
            Ok(r)
        },
        _ => Err(DecodeError::TypeMismatch),
    }
}

pub fn decode_wasm(w: &WireValue) -> (r: Result<WasmMsg, DecodeError>)
    ensures
        match r {
            Ok(m) => wasm_of_wire(w@) == Ok::<WasmMsgModel, DecodeError>(m@),
            Err(e) => wasm_of_wire(w@) == Err::<WasmMsgModel, DecodeError>(e),
        },
{
    match w {
        WireValue::Obj(fields) => {
            proof {
                crate::wire::lemma_wire_obj(*fields, *w);
            }
            if fields.len() != 1 {
                return Err(DecodeError::TypeMismatch);
            }
            if str_eq(fields[0].0.as_str(), "execute") {
                decode_wasm_execute(&fields[0].1)
            } else if str_eq(fields[0].0.as_str(), "instantiate") {
                decode_wasm_instantiate(&fields[0].1)
            } else {
                Err(DecodeError::UnknownTag)
            }
        },
        _ => Err(DecodeError::TypeMismatch),
    }
}

pub fn decode_vote(w: &WireValue) -> (r: Result<VoteOption, DecodeError>)
    ensures
        match r {
            Ok(v) => vote_of_wire(w@) == Ok::<VoteOption, DecodeError>(v),
            Err(e) => vote_of_wire(w@) == Err::<VoteOption, DecodeError>(e),
        },
{
    match w {
        WireValue::Text(s) => {
            if str_eq(s.as_str(), "yes") {
                Ok(VoteOption::Yes)
            } else if str_eq(s.as_str(), "no") {
                Ok(VoteOption::No)
            } else if str_eq(s.as_str(), "abstain") {
                Ok(VoteOption::Abstain)
            } else if str_eq(s.as_str(), "no_with_veto") {
                Ok(VoteOption::NoWithVeto)
            } else {
                Err(DecodeError::UnknownTag)
            }
        },
        _ => Err(DecodeError::TypeMismatch),
    }
}

pub fn decode_gov(w: &WireValue) -> (r: Result<GovMsg, DecodeError>)
    ensures
        match r {
            Ok(m) => gov_of_wire(w@) == Ok::<GovMsgModel, DecodeError>(m@),
            Err(e) => gov_of_wire(w@) == Err::<GovMsgModel, DecodeError>(e),
        },
{
    match w {
        WireValue::Obj(fields) => {
            proof {
                crate::wire::lemma_wire_obj(*fields, *w);
            }
            if fields.len() != 1 {
                return Err(DecodeError::TypeMismatch);
            }
            if str_eq(fields[0].0.as_str(), "vote") {
                match &fields[0].1 {
                    WireValue::Obj(body) => {
                        proof {
                            crate::wire::lemma_wire_obj(*body, fields@[0].1);
                        }
                        if body.len() < 2 {
                            return Err(DecodeError::MissingField);
                        }
                        if body.len() > 2 {
                            return Err(DecodeError::TypeMismatch);
                        }
                        if !str_eq(body[0].0.as_str(), "proposal_id") {
                            return Err(DecodeError::MissingField);
                        }
                        if !str_eq(body[1].0.as_str(), "vote") {
                            return Err(DecodeError::MissingField);
                        }
                        let proposal_id = match uint_value(&body[0].1) {
                            Ok(n) => n,
                            Err(e) => return Err(e),
                        };
                        let vote = match decode_vote(&body[1].1) {
                            Ok(v) => v,
                            Err(e) => return Err(e),
                        };
                        Ok(GovMsg::Vote { proposal_id, vote })
                    },
                    _ => Err(DecodeError::TypeMismatch),
                }
            } else {
                Err(DecodeError::UnknownTag)
            }
        },
        _ => Err(DecodeError::TypeMismatch),
    }
}

fn decode_stargate_payload(w: &WireValue) -> (r: Result<(String, Vec<u8>), DecodeError>)
    ensures
        match r {
            Ok(p) => stargate_of_wire(w@) == Ok::<(Seq<char>, Seq<u8>), DecodeError>(
                (p.0@, p.1@),
            ),
            Err(e) => stargate_of_wire(w@) == Err::<(Seq<char>, Seq<u8>), DecodeError>(e),
        },
{
    match w {
        WireValue::Obj(body) => {
            proof {
                crate::wire::lemma_wire_obj(*body, *w);
            }
            if body.len() < 2 {
                return Err(DecodeError::MissingField);
            }
            if body.len() > 2 {
                return Err(DecodeError::TypeMismatch);
            }
            if !str_eq(body[0].0.as_str(), "type_url") {
                return Err(DecodeError::MissingField);
            }
            if !str_eq(body[1].0.as_str(), "value") {
                return Err(DecodeError::MissingField);
            }
            let type_url = match text_value(&body[0].1) {
                Ok(s) => s,
                Err(e) => return Err(e),
            };
            let value = match bytes_value(&body[1].1) {
                Ok(b) => b,
                Err(e) => return Err(e),
            };
            Ok((type_url, value))
        },
        _ => Err(DecodeError::TypeMismatch),
    }
}

fn decode_custom_payload(w: &WireValue) -> (r: Result<Empty, DecodeError>)
    ensures
        match r {
            Ok(c) => custom_of_wire(w@) == Ok::<Empty, DecodeError>(c),
            Err(e) => custom_of_wire(w@) == Err::<Empty, DecodeError>(e),
        },
{
    match w {
        WireValue::Obj(body) => {
            proof {
                crate::wire::lemma_wire_obj(*body, *w);
            }
            if body.len() == 0 {
                Ok(Empty {  })
            } else {
                Err(DecodeError::TypeMismatch)
            }
        },
        _ => Err(DecodeError::TypeMismatch),
    }
}

/// Decodes an envelope from its wire tree under the given capability set.
pub fn decode_msg(w: &WireValue, caps: CapabilitySet) -> (r: Result<
    CosmosMsg<Empty>,
    DecodeError,
>)
    ensures
        match r {
            Ok(m) => msg_of_wire(w@, caps) == Ok::<CosmosMsgModel<Empty>, DecodeError>(m@),
            Err(e) => msg_of_wire(w@, caps) == Err::<CosmosMsgModel<Empty>, DecodeError>(e),
        },
{
    match w {
        WireValue::Obj(fields) => {
            proof {
                crate::wire::lemma_wire_obj(*fields, *w);
            }
            if fields.len() != 1 {
                return Err(DecodeError::TypeMismatch);
            }
            if str_eq(fields[0].0.as_str(), "bank") {
                match decode_bank(&fields[0].1) {
                    Ok(b) => Ok(CosmosMsg::Bank(b)),
                    Err(e) => Err(e),
                }
            } else if str_eq(fields[0].0.as_str(), "custom") {
                match decode_custom_payload(&fields[0].1) {
                    Ok(c) => Ok(CosmosMsg::Custom(c)),
                    Err(e) => Err(e),
                }
            } else if str_eq(fields[0].0.as_str(), "staking") && caps.staking {
                match decode_staking(&fields[0].1) {
                    Ok(s) => Ok(CosmosMsg::Staking(s)),
                    Err(e) => Err(e),
                }
            } else if str_eq(fields[0].0.as_str(), "distribution") && caps.staking {
                match decode_distribution(&fields[0].1) {
                    Ok(d) => Ok(CosmosMsg::Distribution(d)),
                    Err(e) => Err(e),
                }
            } else if str_eq(fields[0].0.as_str(), "stargate") && caps.stargate {
                match decode_stargate_payload(&fields[0].1) {
                    Ok((type_url, value)) => Ok(
                        CosmosMsg::Stargate { type_url, value: crate::msg::Binary(value) },
                    ),
                    Err(e) => Err(e),
                }
            } else if str_eq(fields[0].0.as_str(), "wasm") {
                match decode_wasm(&fields[0].1) {
                    Ok(m) => Ok(CosmosMsg::Wasm(m)),
                    Err(e) => Err(e),
                }
            } else if str_eq(fields[0].0.as_str(), "gov") && caps.stargate {
                match decode_gov(&fields[0].1) {
                    Ok(g) => Ok(CosmosMsg::Gov(g)),
                    Err(e) => Err(e),
                }
            } else {
                Err(DecodeError::UnknownTag)
            }
        },
        _ => Err(DecodeError::TypeMismatch),
    }
}

// ---------------------------------------------------------------------
// Laws: the codec is lossless and wire-stable.
// ---------------------------------------------------------------------

/// The wire tags and field names this codec distinguishes are pairwise
/// distinct character sequences.
proof fn lemma_tags_distinct()
    ensures
        "burn"@ != "send"@,
        "undelegate"@ != "delegate"@,
        "redelegate"@ != "delegate"@,
        "redelegate"@ != "undelegate"@,
        "withdraw_delegator_reward"@ != "set_withdraw_address"@,
        "instantiate"@ != "execute"@,
        "no"@ != "yes"@,
        "abstain"@ != "yes"@,
        "abstain"@ != "no"@,
        "no_with_veto"@ != "yes"@,
        "no_with_veto"@ != "no"@,
        "no_with_veto"@ != "abstain"@,
        "custom"@ != "bank"@,
        "staking"@ != "bank"@,
        "staking"@ != "custom"@,
        "distribution"@ != "bank"@,
        "distribution"@ != "custom"@,
        "distribution"@ != "staking"@,
        "stargate"@ != "bank"@,
        "stargate"@ != "custom"@,
        "stargate"@ != "staking"@,
        "stargate"@ != "distribution"@,
        "wasm"@ != "bank"@,
        "wasm"@ != "custom"@,
        "wasm"@ != "staking"@,
        "wasm"@ != "distribution"@,
        "wasm"@ != "stargate"@,
        "gov"@ != "bank"@,
        "gov"@ != "custom"@,
        "gov"@ != "staking"@,
        "gov"@ != "distribution"@,
        "gov"@ != "stargate"@,
        "gov"@ != "wasm"@,
        "contract_addr"@ != "funds"@,
        "code_hash"@ != "funds"@,
        "msg"@ != "funds"@,
        "send"@ != "funds"@,
        "callback_sig"@ != "funds"@,
        "code_id"@ != "funds"@,
        "label"@ != "funds"@,
{
    reveal_strlit("bank");
    reveal_strlit("custom");
    reveal_strlit("staking");
    reveal_strlit("distribution");
    reveal_strlit("stargate");
    reveal_strlit("wasm");
    reveal_strlit("gov");
    reveal_strlit("send");
    reveal_strlit("burn");
    reveal_strlit("delegate");
    reveal_strlit("undelegate");
    reveal_strlit("redelegate");
    reveal_strlit("set_withdraw_address");
    reveal_strlit("withdraw_delegator_reward");
    reveal_strlit("execute");
    reveal_strlit("instantiate");
    reveal_strlit("yes");
    reveal_strlit("no");
    reveal_strlit("abstain");
    reveal_strlit("no_with_veto");
    reveal_strlit("funds");
    reveal_strlit("contract_addr");
    reveal_strlit("code_hash");
    reveal_strlit("msg");
    reveal_strlit("callback_sig");
    reveal_strlit("code_id");
    reveal_strlit("label");
    assert("burn"@[0] != "send"@[0]);
    assert("redelegate"@[0] != "undelegate"@[0]);
    assert("wasm"@[0] != "bank"@[0]);
    assert("label"@[0] != "funds"@[0]);
    assert("bank"@.len() == 4);
    assert("custom"@.len() == 6);
    assert("staking"@.len() == 7);
    assert("distribution"@.len() == 12);
    assert("stargate"@.len() == 8);
    assert("wasm"@.len() == 4);
    assert("gov"@.len() == 3);
    assert("send"@.len() == 4);
    assert("burn"@.len() == 4);
    assert("delegate"@.len() == 8);
    assert("undelegate"@.len() == 10);
    assert("redelegate"@.len() == 10);
    assert("set_withdraw_address"@.len() == 20);
    assert("withdraw_delegator_reward"@.len() == 25);
    assert("execute"@.len() == 7);
    assert("instantiate"@.len() == 11);
    assert("yes"@.len() == 3);
    assert("no"@.len() == 2);
    assert("abstain"@.len() == 7);
    assert("no_with_veto"@.len() == 12);
    assert("funds"@.len() == 5);
    assert("contract_addr"@.len() == 13);
    assert("code_hash"@.len() == 9);
    assert("msg"@.len() == 3);
    assert("callback_sig"@.len() == 12);
    assert("code_id"@.len() == 7);
    assert("label"@.len() == 5);
}

/// A coin decodes back from its own wire form.
pub proof fn lemma_coin_round_trip(c: CoinModel)
    ensures
        coin_of_wire(coin_wire(c)) == Ok::<CoinModel, DecodeError>(c),
{
    assert(coin_of_wire(coin_wire(c))->Ok_0 =~= c);
}

/// A coin sequence decodes back from its own wire form.
pub proof fn lemma_coins_round_trip(cs: Seq<CoinModel>)
    ensures
        coins_of_wire(coins_wire(cs)) == Ok::<Seq<CoinModel>, DecodeError>(cs),
    decreases cs.len(),
{
    let m = cs.map_values(|c: CoinModel| coin_wire(c));
    if cs.len() == 0 {
        assert(m =~= Seq::<WireTree>::empty());
        assert(coins_of_elems(m)->Ok_0 =~= cs);
    } else {
        let init = cs.drop_last();
        lemma_coins_round_trip(init);
        assert(m.drop_last() =~= init.map_values(|c: CoinModel| coin_wire(c)));
        assert(m.last() == coin_wire(cs.last()));
        lemma_coin_round_trip(cs.last());
        assert(coins_of_elems(m) == Ok::<Seq<CoinModel>, DecodeError>(init.push(cs.last())));
        assert(init.push(cs.last()) =~= cs);
    }
}

/// Every bank message decodes back from its own wire form.
pub proof fn lemma_bank_round_trip(b: BankMsgModel)
    ensures
        bank_of_wire(bank_wire(b)) == Ok::<BankMsgModel, DecodeError>(b),
{
    lemma_tags_distinct();
    lemma_tags_distinct();
    match b {
        BankMsgModel::Send { to_address, amount } => {
            lemma_coins_round_trip(amount);
        },
        BankMsgModel::Burn { amount } => {
            lemma_coins_round_trip(amount);
        },
    }
}

/// Every staking message decodes back from its own wire form.
pub proof fn lemma_staking_round_trip(s: StakingMsgModel)
    ensures
        staking_of_wire(staking_wire(s)) == Ok::<StakingMsgModel, DecodeError>(s),
{
    lemma_tags_distinct();
    match s {
        StakingMsgModel::Delegate { validator, amount } => {
            lemma_coin_round_trip(amount);
        },
        StakingMsgModel::Undelegate { validator, amount } => {
            lemma_coin_round_trip(amount);
        },
        StakingMsgModel::Redelegate { src_validator, dst_validator, amount } => {
            lemma_coin_round_trip(amount);
        },
    }
}

/// Every distribution message decodes back from its own wire form.
pub proof fn lemma_distribution_round_trip(d: DistributionMsgModel)
    ensures
        distribution_of_wire(distribution_wire(d)) == Ok::<DistributionMsgModel, DecodeError>(d),
{
    lemma_tags_distinct();
}

/// Every wasm message decodes back from its own wire form.
pub proof fn lemma_wasm_round_trip(w: WasmMsgModel)
    ensures
        wasm_of_wire(wasm_wire(w)) == Ok::<WasmMsgModel, DecodeError>(w),
{
    lemma_tags_distinct();
    match w {
        WasmMsgModel::Execute { contract_addr, code_hash, msg, funds, callback_sig } => {
            lemma_coins_round_trip(funds);
        },
        WasmMsgModel::Instantiate { code_id, code_hash, msg, funds, label, callback_sig } => {
            lemma_coins_round_trip(funds);
        },
    }
}

/// Every governance message decodes back from its own wire form.
pub proof fn lemma_gov_round_trip(g: GovMsgModel)
    ensures
        gov_of_wire(gov_wire(g)) == Ok::<GovMsgModel, DecodeError>(g),
{
    lemma_tags_distinct();
}

/// Round trip: every envelope whose capability the decoder enables decodes
/// back, unchanged, from its own wire form — for arbitrary field values.
pub proof fn lemma_msg_round_trip(m: CosmosMsgModel<Empty>, caps: CapabilitySet)
    requires
        capability_allows(caps, m),
    ensures
        msg_of_wire(msg_wire(m), caps) == Ok::<CosmosMsgModel<Empty>, DecodeError>(m),
{
    lemma_tags_distinct();
    match m {
        CosmosMsgModel::Bank(b) => {
            lemma_bank_round_trip(b);
        },
        CosmosMsgModel::Custom(c) => {
            assert(c =~= Empty {  });
        },
        CosmosMsgModel::Staking(s) => {
            lemma_staking_round_trip(s);
        },
        CosmosMsgModel::Distribution(d) => {
            lemma_distribution_round_trip(d);
        },
        CosmosMsgModel::Stargate { type_url, value } => {},
        CosmosMsgModel::Wasm(w) => {
            lemma_wasm_round_trip(w);
        },
        CosmosMsgModel::Gov(g) => {
            lemma_gov_round_trip(g);
        },
    }
}

/// Tag stability: the wire form of every envelope is a one-entry object
/// whose key is exactly the variant's lower-case snake_case tag.
pub proof fn lemma_tag_stable(m: CosmosMsgModel<Empty>)
    ensures
        (msg_wire(m) is Obj),
        msg_wire(m)->Obj_0.len() == 1,
        msg_wire(m)->Obj_0[0].0 == msg_tag(m),
{
}

/// The funds of a wasm message travel under the frozen wire name `send`;
/// no field of the payload is ever named `funds`.
pub proof fn lemma_wasm_funds_key(w: WasmMsgModel)
    ensures
        (wasm_wire(w)->Obj_0[0].1 is Obj),
        wasm_wire(w)->Obj_0[0].1->Obj_0[3].0 == "send"@,
        forall|i: int|
            0 <= i < wasm_wire(w)->Obj_0[0].1->Obj_0.len() ==> (
            #[trigger] wasm_wire(w)->Obj_0[0].1->Obj_0[i]).0 != "funds"@,
{
    lemma_tags_distinct();
    let fields = wasm_wire(w)->Obj_0[0].1->Obj_0;
    assert forall|i: int| 0 <= i < fields.len() implies (#[trigger] fields[i]).0 != "funds"@ by {
        match w {
            WasmMsgModel::Execute { callback_sig, .. } => {
                if callback_sig is Some {
                    assert(fields.len() == 5);
                } else {
                    assert(fields.len() == 4);
                }
            },
            WasmMsgModel::Instantiate { callback_sig, .. } => {
                if callback_sig is Some {
                    assert(fields.len() == 6);
                } else {
                    assert(fields.len() == 5);
                }
            },
        }
    }
}

/// The rename holds on the way in as well: an execute payload that names
/// its funds `funds` instead of the frozen wire name `send` is rejected.
pub proof fn lemma_wasm_funds_key_rejected(p: WireTree)
    requires
        (p is Obj),
        4 <= p->Obj_0.len() <= 5,
        p->Obj_0[3].0 == "funds"@,
    ensures
        (wasm_execute_of_wire(p) is Err),
{
    lemma_tags_distinct();
}

/// Capability isolation: a one-entry object carrying the tag of a
/// capability the decoder does not enable is rejected with
/// [`DecodeError::UnknownTag`], whatever its payload.
pub proof fn lemma_disabled_capability_rejected(w: WireTree, caps: CapabilitySet)
    requires
        (w is Obj),
        w->Obj_0.len() == 1,
        ((!caps.staking && (w->Obj_0[0].0 == "staking"@ || w->Obj_0[0].0 == "distribution"@)) || (
        !caps.stargate && (w->Obj_0[0].0 == "stargate"@ || w->Obj_0[0].0 == "gov"@))),
    ensures
        msg_of_wire(w, caps) == Err::<CosmosMsgModel<Empty>, DecodeError>(DecodeError::UnknownTag),
{
    lemma_tags_distinct();
}

/// Conversion losslessness for bank messages: decoding the encoding of the
/// wrapped message equals wrapping the decoding of the encoding of the
/// message itself.
pub proof fn lemma_bank_conversion_lossless(b: BankMsgModel, caps: CapabilitySet)
    ensures
        msg_of_wire(msg_wire(CosmosMsgModel::Bank(b)), caps) == match bank_of_wire(bank_wire(b)) {
            Ok(x) => Ok::<CosmosMsgModel<Empty>, DecodeError>(CosmosMsgModel::Bank(x)),
            Err(e) => Err::<CosmosMsgModel<Empty>, DecodeError>(e),
        },
{
    lemma_msg_round_trip(CosmosMsgModel::Bank(b), caps);
    lemma_bank_round_trip(b);
}

/// Conversion losslessness for staking messages.
pub proof fn lemma_staking_conversion_lossless(s: StakingMsgModel, caps: CapabilitySet)
    requires
        caps.staking,
    ensures
        msg_of_wire(msg_wire(CosmosMsgModel::Staking(s)), caps) == match staking_of_wire(
            staking_wire(s),
        ) {
            Ok(x) => Ok::<CosmosMsgModel<Empty>, DecodeError>(CosmosMsgModel::Staking(x)),
            Err(e) => Err::<CosmosMsgModel<Empty>, DecodeError>(e),
        },
{
    lemma_msg_round_trip(CosmosMsgModel::Staking(s), caps);
    lemma_staking_round_trip(s);
}

/// Conversion losslessness for distribution messages.
pub proof fn lemma_distribution_conversion_lossless(d: DistributionMsgModel, caps: CapabilitySet)
    requires
        caps.staking,
    ensures
        msg_of_wire(msg_wire(CosmosMsgModel::Distribution(d)), caps) == match distribution_of_wire(
            distribution_wire(d),
        ) {
            Ok(x) => Ok::<CosmosMsgModel<Empty>, DecodeError>(CosmosMsgModel::Distribution(x)),
            Err(e) => Err::<CosmosMsgModel<Empty>, DecodeError>(e),
        },
{
    lemma_msg_round_trip(CosmosMsgModel::Distribution(d), caps);
    lemma_distribution_round_trip(d);
}

/// Conversion losslessness for wasm messages.
pub proof fn lemma_wasm_conversion_lossless(w: WasmMsgModel, caps: CapabilitySet)
    ensures
        msg_of_wire(msg_wire(CosmosMsgModel::Wasm(w)), caps) == match wasm_of_wire(wasm_wire(w)) {
            Ok(x) => Ok::<CosmosMsgModel<Empty>, DecodeError>(CosmosMsgModel::Wasm(x)),
            Err(e) => Err::<CosmosMsgModel<Empty>, DecodeError>(e),
        },
{
    lemma_msg_round_trip(CosmosMsgModel::Wasm(w), caps);
    lemma_wasm_round_trip(w);
}

/// Conversion losslessness for governance messages.
pub proof fn lemma_gov_conversion_lossless(g: GovMsgModel, caps: CapabilitySet)
    requires
        caps.stargate,
    ensures
        msg_of_wire(msg_wire(CosmosMsgModel::Gov(g)), caps) == match gov_of_wire(gov_wire(g)) {
            Ok(x) => Ok::<CosmosMsgModel<Empty>, DecodeError>(CosmosMsgModel::Gov(x)),
            Err(e) => Err::<CosmosMsgModel<Empty>, DecodeError>(e),
        },
{
    lemma_msg_round_trip(CosmosMsgModel::Gov(g), caps);
    lemma_gov_round_trip(g);
}

} // verus!

