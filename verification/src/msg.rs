//! The message envelope and its per-module sub-unions.
//!
//! A contract describes each side effect it requests from the host chain as
//! a [`CosmosMsg`]: a tagged union over the module the effect belongs to.
//! All values are pure data carriers — no field is validated here; the host
//! dispatcher validates addresses, amounts and hashes after decoding.

use vstd::prelude::*;

verus! {

/// The fixed 7-byte marker prefix (ASCII `REPLY01`) identifying
/// encrypted-reply payloads on an internal protocol channel; not itself a
/// message, but a protocol discriminant consumed by the host side.
pub open spec fn reply_encryption_magic() -> Seq<u8> {
    seq![82u8, 69u8, 80u8, 76u8, 89u8, 48u8, 49u8]
}

/// Returns the marker prefix [`reply_encryption_magic`] as bytes.
pub fn reply_encryption_magic_bytes() -> (r: Vec<u8>)
    ensures
        r@ == reply_encryption_magic(),
{
    let mut r: Vec<u8> = Vec::new();
    r.push(82);
    r.push(69);
    r.push(80);
    r.push(76);
    r.push(89);
    r.push(48);
    r.push(49);
    proof {
        assert(r@ =~= reply_encryption_magic());
    }
    r
}

/// A native coin amount: a denomination and a string-encoded integer
/// amount.  Both fields travel untouched.
#[derive(Clone, Debug, PartialEq)]
pub struct Coin {
    pub denom: String,
    pub amount: String,
}

/// View of [`Coin`].
#[verifier::ext_equal]
pub struct CoinModel {
    pub denom: Seq<char>,
    pub amount: Seq<char>,
}

impl View for Coin {
    type V = CoinModel;

    open spec fn view(&self) -> CoinModel {
        CoinModel { denom: self.denom@, amount: self.amount@ }
    }
}

impl DeepView for Coin {
    type V = CoinModel;

    open spec fn deep_view(&self) -> CoinModel {
        self@
    }
}

impl Coin {
    pub fn new(denom: String, amount: String) -> (r: Coin)
        ensures
            r@ == (CoinModel { denom: denom@, amount: amount@ }),
    {
        Coin { denom, amount }
    }
}

/// An opaque binary blob; the external codec renders it in base64 on the
/// wire.
#[derive(Clone, Debug, PartialEq)]
pub struct Binary(pub Vec<u8>);

impl View for Binary {
    type V = Seq<u8>;

    open spec fn view(&self) -> Seq<u8> {
        self.0@
    }
}

impl DeepView for Binary {
    type V = Seq<u8>;

    open spec fn deep_view(&self) -> Seq<u8> {
        self.0@
    }
}

/// The default `Custom` payload: a contract that defines no app-specific
/// messages uses this empty placeholder.
#[derive(Clone, Debug, PartialEq)]
pub struct Empty {}

impl View for Empty {
    type V = Empty;

    open spec fn view(&self) -> Empty {
        Empty {}
    }
}

impl DeepView for Empty {
    type V = Empty;

    open spec fn deep_view(&self) -> Empty {
        Empty {}
    }
}

/// The message types of the bank module.
#[derive(Clone, Debug, PartialEq)]
pub enum BankMsg {
    /// Sends native tokens from the contract's account to the given
    /// address.
    Send { to_address: String, amount: Vec<Coin> },
    /// Burns the given coins from the contract's account.
    Burn { amount: Vec<Coin> },
}

/// View of [`BankMsg`].
#[verifier::ext_equal]
pub enum BankMsgModel {
    Send { to_address: Seq<char>, amount: Seq<CoinModel> },
    Burn { amount: Seq<CoinModel> },
}

impl View for BankMsg {
    type V = BankMsgModel;

    open spec fn view(&self) -> BankMsgModel {
        match self {
            BankMsg::Send { to_address, amount } => BankMsgModel::Send {
                to_address: to_address@,
                amount: amount.deep_view(),
            },
            BankMsg::Burn { amount } => BankMsgModel::Burn { amount: amount.deep_view() },
        }
    }
}

impl DeepView for BankMsg {
    type V = BankMsgModel;

    open spec fn deep_view(&self) -> BankMsgModel {
        self@
    }
}

impl BankMsg {
    /// Constructor for a send; no field is validated here.
    pub fn send(to_address: String, amount: Vec<Coin>) -> (r: BankMsg)
        ensures
            r@ == (BankMsgModel::Send { to_address: to_address@, amount: amount.deep_view() }),
    {
        BankMsg::Send { to_address, amount }
    }

    /// Constructor for a burn; no field is validated here.
    pub fn burn(amount: Vec<Coin>) -> (r: BankMsg)
        ensures
            r@ == (BankMsgModel::Burn { amount: amount.deep_view() }),
    {
        BankMsg::Burn { amount }
    }
}

/// The message types of the staking module (optional capability).
#[derive(Clone, Debug, PartialEq)]
pub enum StakingMsg {
    /// Delegates the amount from the contract's account to the validator.
    Delegate { validator: String, amount: Coin },
    /// Undelegates the amount previously delegated to the validator.
    Undelegate { validator: String, amount: Coin },
    /// Moves a delegation from one validator to another.
    Redelegate { src_validator: String, dst_validator: String, amount: Coin },
}

/// View of [`StakingMsg`].
#[verifier::ext_equal]
pub enum StakingMsgModel {
    Delegate { validator: Seq<char>, amount: CoinModel },
    Undelegate { validator: Seq<char>, amount: CoinModel },
    Redelegate { src_validator: Seq<char>, dst_validator: Seq<char>, amount: CoinModel },
}

impl View for StakingMsg {
    type V = StakingMsgModel;

    open spec fn view(&self) -> StakingMsgModel {
        match self {
            StakingMsg::Delegate { validator, amount } => StakingMsgModel::Delegate {
                validator: validator@,
                amount: amount@,
            },
            StakingMsg::Undelegate { validator, amount } => StakingMsgModel::Undelegate {
                validator: validator@,
                amount: amount@,
            },
            StakingMsg::Redelegate { src_validator, dst_validator, amount } => {
                StakingMsgModel::Redelegate {
                    src_validator: src_validator@,
                    dst_validator: dst_validator@,
                    amount: amount@,
                }
            },
        }
    }
}

impl DeepView for StakingMsg {
    type V = StakingMsgModel;

    open spec fn deep_view(&self) -> StakingMsgModel {
        self@
    }
}

impl StakingMsg {
    /// Constructor for a delegation.
    pub fn delegate(validator: String, amount: Coin) -> (r: StakingMsg)
        ensures
            r@ == (StakingMsgModel::Delegate { validator: validator@, amount: amount@ }),
    {
        StakingMsg::Delegate { validator, amount }
    }

    /// Constructor for an undelegation.
    pub fn undelegate(validator: String, amount: Coin) -> (r: StakingMsg)
        ensures
            r@ == (StakingMsgModel::Undelegate { validator: validator@, amount: amount@ }),
    {
        StakingMsg::Undelegate { validator, amount }
    }

    /// Constructor for a redelegation.
    pub fn redelegate(src_validator: String, dst_validator: String, amount: Coin) -> (r:
        StakingMsg)
        ensures
            r@ == (StakingMsgModel::Redelegate {
                src_validator: src_validator@,
                dst_validator: dst_validator@,
                amount: amount@,
            }),
    {
        StakingMsg::Redelegate { src_validator, dst_validator, amount }
    }
}

/// The message types of the distribution module (optional capability).
#[derive(Clone, Debug, PartialEq)]
pub enum DistributionMsg {
    /// Sets the address withdrawn staking rewards are sent to.
    SetWithdrawAddress { address: String },
    /// Withdraws the rewards accumulated with the given validator.
    WithdrawDelegatorReward { validator: String },
}

/// View of [`DistributionMsg`].
#[verifier::ext_equal]
pub enum DistributionMsgModel {
    SetWithdrawAddress { address: Seq<char> },
    WithdrawDelegatorReward { validator: Seq<char> },
}

impl View for DistributionMsg {
    type V = DistributionMsgModel;

    open spec fn view(&self) -> DistributionMsgModel {
        match self {
            DistributionMsg::SetWithdrawAddress { address } => {
                DistributionMsgModel::SetWithdrawAddress { address: address@ }
            },
            DistributionMsg::WithdrawDelegatorReward { validator } => {
                DistributionMsgModel::WithdrawDelegatorReward { validator: validator@ }
            },
        }
    }
}

impl DeepView for DistributionMsg {
    type V = DistributionMsgModel;

    open spec fn deep_view(&self) -> DistributionMsgModel {
        self@
    }
}

impl DistributionMsg {
    /// Constructor for setting the withdraw address.
    pub fn set_withdraw_address(address: String) -> (r: DistributionMsg)
        ensures
            r@ == (DistributionMsgModel::SetWithdrawAddress { address: address@ }),
    {
        DistributionMsg::SetWithdrawAddress { address }
    }

    /// Constructor for withdrawing the rewards earned with a validator.
    pub fn withdraw_delegator_reward(validator: String) -> (r: DistributionMsg)
        ensures
            r@ == (DistributionMsgModel::WithdrawDelegatorReward { validator: validator@ }),
    {
        DistributionMsg::WithdrawDelegatorReward { validator }
    }
}

/// The message types of the wasm module.
#[derive(Clone, Debug, PartialEq)]
pub enum WasmMsg {
    /// Dispatches a call to another contract at a known address.
    ///
    /// `code_hash` is the hex-encoded hash of the destination code: it
    /// binds the request to that code, hardening against an attacker who
    /// redirects the call to different code at a reused or faked address.
    ///
    /// `callback_sig` authenticates messages that originate from another
    /// contract rather than from an external submission; only the internal
    /// dispatcher path populates it.
    Execute {
        contract_addr: String,
        code_hash: String,
        /// The JSON-encoded execute message for the destination contract.
        msg: Binary,
        funds: Vec<Coin>,
        callback_sig: Option<Vec<u8>>,
    },
    /// Instantiates a new contract from previously uploaded code.
    Instantiate {
        code_id: u64,
        code_hash: String,
        /// The JSON-encoded instantiate message for the new contract.
        msg: Binary,
        funds: Vec<Coin>,
        /// A human-readable label for the contract.
        label: String,
        callback_sig: Option<Vec<u8>>,
    },
}

/// View of [`WasmMsg`].
#[verifier::ext_equal]
pub enum WasmMsgModel {
    Execute {
        contract_addr: Seq<char>,
        code_hash: Seq<char>,
        msg: Seq<u8>,
        funds: Seq<CoinModel>,
        callback_sig: Option<Seq<u8>>,
    },
    Instantiate {
        code_id: u64,
        code_hash: Seq<char>,
        msg: Seq<u8>,
        funds: Seq<CoinModel>,
        label: Seq<char>,
        callback_sig: Option<Seq<u8>>,
    },
}

impl View for WasmMsg {
    type V = WasmMsgModel;

    open spec fn view(&self) -> WasmMsgModel {
        match self {
            WasmMsg::Execute { contract_addr, code_hash, msg, funds, callback_sig } => {
                WasmMsgModel::Execute {
                    contract_addr: contract_addr@,
                    code_hash: code_hash@,
                    msg: msg@,
                    funds: funds.deep_view(),
                    callback_sig: callback_sig.deep_view(),
                }
            },
            WasmMsg::Instantiate { code_id, code_hash, msg, funds, label, callback_sig } => {
                WasmMsgModel::Instantiate {
                    code_id: *code_id,
                    code_hash: code_hash@,
                    msg: msg@,
                    funds: funds.deep_view(),
                    label: label@,
                    callback_sig: callback_sig.deep_view(),
                }
            },
        }
    }
}

impl DeepView for WasmMsg {
    type V = WasmMsgModel;

    open spec fn deep_view(&self) -> WasmMsgModel {
        self@
    }
}

impl WasmMsg {
    /// Contract-facing constructor for an execute call.  It never
    /// populates `callback_sig`: that field is reserved for the internal
    /// dispatcher path.
    pub fn execute(contract_addr: String, code_hash: String, msg: Binary, funds: Vec<Coin>) -> (r:
        WasmMsg)
        ensures
            r@ == (WasmMsgModel::Execute {
                contract_addr: contract_addr@,
                code_hash: code_hash@,
                msg: msg@,
                funds: funds.deep_view(),
                callback_sig: None,
            }),
    {
        WasmMsg::Execute { contract_addr, code_hash, msg, funds, callback_sig: None }
    }

    /// Contract-facing constructor for an instantiate call; `callback_sig`
    /// is never populated here.
    pub fn instantiate(
        code_id: u64,
        code_hash: String,
        msg: Binary,
        funds: Vec<Coin>,
        label: String,
    ) -> (r: WasmMsg)
        ensures
            r@ == (WasmMsgModel::Instantiate {
                code_id: code_id,
                code_hash: code_hash@,
                msg: msg@,
                funds: funds.deep_view(),
                label: label@,
                callback_sig: None,
            }),
    {
        WasmMsg::Instantiate { code_id, code_hash, msg, funds, label, callback_sig: None }
    }

    /// Internal dispatcher path: attaches the authentication signature that
    /// marks this message as originating from another contract.  Only the
    /// `callback_sig` field changes.
    pub fn with_callback_sig(self, sig: Vec<u8>) -> (r: WasmMsg)
        ensures
            r@ == match self@ {
                WasmMsgModel::Execute { contract_addr, code_hash, msg, funds, callback_sig } => {
                    WasmMsgModel::Execute {
                        contract_addr,
                        code_hash,
                        msg,
                        funds,
                        callback_sig: Some(sig@),
                    }
                },
                WasmMsgModel::Instantiate {
                    code_id,
                    code_hash,
                    msg,
                    funds,
                    label,
                    callback_sig,
                } => {
                    WasmMsgModel::Instantiate {
                        code_id,
                        code_hash,
                        msg,
                        funds,
                        label,
                        callback_sig: Some(sig@),
                    }
                },
            },
    {
        proof {
            assert(sig.deep_view() =~= sig@);
        }
        match self {
            WasmMsg::Execute { contract_addr, code_hash, msg, funds, callback_sig: _ } => {
                WasmMsg::Execute { contract_addr, code_hash, msg, funds, callback_sig: Some(sig) }
            },
            WasmMsg::Instantiate { code_id, code_hash, msg, funds, label, callback_sig: _ } => {
                WasmMsg::Instantiate {
                    code_id,
                    code_hash,
                    msg,
                    funds,
                    label,
                    callback_sig: Some(sig),
                }
            },
        }
    }
}

/// The message types of the governance module (optional capability).
#[derive(Clone, Debug, PartialEq)]
pub enum GovMsg {
    /// Casts the contract's vote on an open proposal.
    Vote { proposal_id: u64, vote: VoteOption },
}

/// View of [`GovMsg`].
#[verifier::ext_equal]
pub enum GovMsgModel {
    Vote { proposal_id: u64, vote: VoteOption },
}

impl View for GovMsg {
    type V = GovMsgModel;

    open spec fn view(&self) -> GovMsgModel {
        match self {
            GovMsg::Vote { proposal_id, vote } => GovMsgModel::Vote {
                proposal_id: *proposal_id,
                vote: *vote,
            },
        }
    }
}

impl DeepView for GovMsg {
    type V = GovMsgModel;

    open spec fn deep_view(&self) -> GovMsgModel {
        self@
    }
}

impl GovMsg {
    /// Constructor for a governance vote.
    pub fn vote(proposal_id: u64, vote: VoteOption) -> (r: GovMsg)
        ensures
            r@ == (GovMsgModel::Vote { proposal_id, vote }),
    {
        GovMsg::Vote { proposal_id, vote }
    }
}

/// The options a governance vote can take.
#[derive(Clone, Copy, Debug, PartialEq, Eq, Structural)]
pub enum VoteOption {
    Yes,
    No,
    Abstain,
    NoWithVeto,
}

/// The envelope: which module a requested effect belongs to, generic over
/// an application-supplied `Custom` payload.
///
/// The payload type only needs value capabilities (clone, structural
/// equality, debug formatting) at the type itself; whether it can cross the
/// wire is the concern of the codec actually used at the point of
/// serialization, so an application payload that is never serialized needs
/// no codec support.
#[derive(Clone, Debug, PartialEq)]
pub enum CosmosMsg<T = Empty> where T: Clone + core::fmt::Debug + PartialEq {
    Bank(BankMsg),
    /// An app-specific message, interpreted by custom host code.
    Custom(T),
    /// Staking module (optional capability).
    Staking(StakingMsg),
    /// Distribution module (optional capability).
    Distribution(DistributionMsg),
    /// A raw protocol passthrough message, encoded like a protobuf `Any`
    /// (optional capability).
    Stargate { type_url: String, value: Binary },
    Wasm(WasmMsg),
    /// Governance module (optional capability).
    Gov(GovMsg),
}

/// View of [`CosmosMsg`], generic over the view of the custom payload.
#[verifier::ext_equal]
pub enum CosmosMsgModel<C> {
    Bank(BankMsgModel),
    Custom(C),
    Staking(StakingMsgModel),
    Distribution(DistributionMsgModel),
    Stargate { type_url: Seq<char>, value: Seq<u8> },
    Wasm(WasmMsgModel),
    Gov(GovMsgModel),
}

impl<T: DeepView + Clone + core::fmt::Debug + PartialEq> View for CosmosMsg<T> {
    type V = CosmosMsgModel<T::V>;

    open spec fn view(&self) -> CosmosMsgModel<T::V> {
        match self {
            CosmosMsg::Bank(m) => CosmosMsgModel::Bank(m@),
            CosmosMsg::Custom(t) => CosmosMsgModel::Custom(t.deep_view()),
            CosmosMsg::Staking(m) => CosmosMsgModel::Staking(m@),
            CosmosMsg::Distribution(m) => CosmosMsgModel::Distribution(m@),
            CosmosMsg::Stargate { type_url, value } => CosmosMsgModel::Stargate {
                type_url: type_url@,
                value: value@,
            },
            CosmosMsg::Wasm(m) => CosmosMsgModel::Wasm(m@),
            CosmosMsg::Gov(m) => CosmosMsgModel::Gov(m@),
        }
    }
}

impl<T: DeepView + Clone + core::fmt::Debug + PartialEq> DeepView for CosmosMsg<T> {
    type V = CosmosMsgModel<T::V>;

    open spec fn deep_view(&self) -> CosmosMsgModel<T::V> {
        self@
    }
}

impl<T: DeepView + Clone + core::fmt::Debug + PartialEq> CosmosMsg<T> {
    /// Constructor for a raw protocol passthrough message.
    pub fn stargate(type_url: String, value: Binary) -> (r: Self)
        ensures
            r@ == (CosmosMsgModel::<T::V>::Stargate { type_url: type_url@, value: value@ }),
    {
        CosmosMsg::Stargate { type_url, value }
    }
}

impl<T: Clone + core::fmt::Debug + PartialEq> From<BankMsg> for CosmosMsg<T> {
    fn from(msg: BankMsg) -> (r: Self) {
        CosmosMsg::Bank(msg)
    }
}

impl<T: Clone + core::fmt::Debug + PartialEq> vstd::std_specs::convert::FromSpecImpl<BankMsg> for CosmosMsg<T> {
    open spec fn obeys_from_spec() -> bool {
        true
    }

    open spec fn from_spec(msg: BankMsg) -> Self {
        CosmosMsg::Bank(msg)
    }
}

impl<T: Clone + core::fmt::Debug + PartialEq> From<StakingMsg> for CosmosMsg<T> {
    fn from(msg: StakingMsg) -> (r: Self) {
        CosmosMsg::Staking(msg)
    }
}

impl<T: Clone + core::fmt::Debug + PartialEq> vstd::std_specs::convert::FromSpecImpl<StakingMsg> for CosmosMsg<T> {
    open spec fn obeys_from_spec() -> bool {
        true
    }

    open spec fn from_spec(msg: StakingMsg) -> Self {
        CosmosMsg::Staking(msg)
    }
}

impl<T: Clone + core::fmt::Debug + PartialEq> From<DistributionMsg> for CosmosMsg<T> {
    fn from(msg: DistributionMsg) -> (r: Self) {
        CosmosMsg::Distribution(msg)
    }
}

impl<T: Clone + core::fmt::Debug + PartialEq> vstd::std_specs::convert::FromSpecImpl<DistributionMsg> for CosmosMsg<T> {
    open spec fn obeys_from_spec() -> bool {
        true
    }

    open spec fn from_spec(msg: DistributionMsg) -> Self {
        CosmosMsg::Distribution(msg)
    }
}

impl<T: Clone + core::fmt::Debug + PartialEq> From<WasmMsg> for CosmosMsg<T> {
    fn from(msg: WasmMsg) -> (r: Self) {
        CosmosMsg::Wasm(msg)
    }
}

impl<T: Clone + core::fmt::Debug + PartialEq> vstd::std_specs::convert::FromSpecImpl<WasmMsg> for CosmosMsg<T> {
    open spec fn obeys_from_spec() -> bool {
        true
    }

    open spec fn from_spec(msg: WasmMsg) -> Self {
        CosmosMsg::Wasm(msg)
    }
}

impl<T: Clone + core::fmt::Debug + PartialEq> From<GovMsg> for CosmosMsg<T> {
    fn from(msg: GovMsg) -> (r: Self) {
        CosmosMsg::Gov(msg)
    }
}

impl<T: Clone + core::fmt::Debug + PartialEq> vstd::std_specs::convert::FromSpecImpl<GovMsg> for CosmosMsg<T> {
    open spec fn obeys_from_spec() -> bool {
        true
    }

    open spec fn from_spec(msg: GovMsg) -> Self {
        CosmosMsg::Gov(msg)
    }
}

} // verus!
