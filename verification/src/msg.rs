//! The requests that the sale answers, and the messages it sends out.
use vstd::prelude::*;

verus! {

/// The parameters with which a sale is opened.
#[derive(Clone, Debug, PartialEq, Eq)]
pub struct InstantiateMsg {
    pub total_supply: u128,
    pub presale_start: u64,
    pub presale_end: u64,
    pub vesting_period: u64,
    pub vesting_step_period: u64,
    pub token_price: u128,
    pub denom: String,
    pub admin_wallet: String,
}

/// The requests that change the sale.
#[derive(Clone, Debug, PartialEq, Eq)]
pub enum ExecuteMsg {
    /// Hand the sale over to another owner.
    ChangeOwner { address: String },
    /// Point the sale at the token contract.
    SetTokenAddress { address: String },
    /// Have the token contract mint the whole supply to the sale.
    SendTokenContract {},
    /// Pay out the sender's tokens that have vested.
    WithdrawToken {},
    /// Pay out the unsold tokens to the admin wallet.
    WithdrawAdminToken {},
    /// Buy `amount` tokens with the coins sent along.
    BuyToken { amount: u128 },
}

/// The requests that read the sale.
#[derive(Clone, Debug, PartialEq, Eq)]
pub enum QueryMsg {
    /// The sale's configuration.
    GetStateInfo {},
    /// The ledger entry of one buyer.
    GetUserInfo { address: String },
    /// The buyers, in the order of their first purchase.
    GetAllUsers {},
    /// Whether a buyer can withdraw now.
    CheckWithdraw { address: String },
}

/// An amount of one coin.
#[derive(Clone, Debug, PartialEq, Eq)]
pub struct Coin {
    pub denom: String,
    pub amount: u128,
}

/// An amount of one coin, seen as mathematical values.
pub struct CoinView {
    pub denom: Seq<char>,
    pub amount: u128,
}

impl View for Coin {
    type V = CoinView;

    open spec fn view(&self) -> CoinView {
        CoinView { denom: self.denom@, amount: self.amount }
    }
}

/// The coins of `coins`, seen as mathematical values.
pub open spec fn coins_view(coins: Seq<Coin>) -> Seq<CoinView> {
    coins.map_values(|c: Coin| c@)
}

/// Who sends a request, and the coins sent with it.
#[derive(Clone, Debug, PartialEq, Eq)]
pub struct MessageInfo {
    pub sender: String,
    pub funds: Vec<Coin>,
}

/// What the sale knows of the block in which a request runs.
#[derive(Clone, Debug, PartialEq, Eq)]
pub struct Env {
    /// The block's time, in seconds.
    pub block_time: u64,
    /// The sale's own account.
    pub contract_address: String,
}

/// A call on the token contract.
#[derive(Clone, Debug, PartialEq, Eq)]
pub enum Cw20Call {
    /// Mint `amount` tokens to `recipient`.
    Mint { recipient: String, amount: u128 },
    /// Transfer `amount` of the caller's tokens to `recipient`.
    Transfer { recipient: String, amount: u128 },
}

/// A call on the token contract, seen as mathematical values.
pub enum Cw20CallView {
    Mint { recipient: Seq<char>, amount: u128 },
    Transfer { recipient: Seq<char>, amount: u128 },
}

impl View for Cw20Call {
    type V = Cw20CallView;

    open spec fn view(&self) -> Cw20CallView {
        match self {
            Cw20Call::Mint { recipient, amount } => Cw20CallView::Mint {
                recipient: recipient@,
                amount: *amount,
            },
            Cw20Call::Transfer { recipient, amount } => Cw20CallView::Transfer {
                recipient: recipient@,
                amount: *amount,
            },
        }
    }
}

/// A message that the sale sends out when a request succeeds.
#[derive(Clone, Debug, PartialEq, Eq)]
pub enum OutMsg {
    /// Send the coins `amount` to `to_address`.
    BankSend { to_address: String, amount: Vec<Coin> },
    /// Call the contract `contract_addr` with the encoded message `msg`,
    /// sending `funds` along.
    WasmExecute { contract_addr: String, msg: Vec<u8>, funds: Vec<Coin> },
}

/// A message that the sale sends out, seen as mathematical values.
pub enum OutMsgView {
    BankSend { to_address: Seq<char>, amount: Seq<CoinView> },
    WasmExecute { contract_addr: Seq<char>, msg: Seq<u8>, funds: Seq<CoinView> },
}

impl View for OutMsg {
    type V = OutMsgView;

    open spec fn view(&self) -> OutMsgView {
        match self {
            OutMsg::BankSend { to_address, amount } => OutMsgView::BankSend {
                to_address: to_address@,
                amount: coins_view(amount@),
            },
            OutMsg::WasmExecute { contract_addr, msg, funds } => OutMsgView::WasmExecute {
                contract_addr: contract_addr@,
                msg: msg@,
                funds: coins_view(funds@),
            },
        }
    }
}

/// The answer to a successful request: the messages to send out.
#[derive(Clone, Debug, PartialEq, Eq)]
pub struct Response {
    pub messages: Vec<OutMsg>,
}

impl View for Response {
    type V = Seq<OutMsgView>;

    open spec fn view(&self) -> Seq<OutMsgView> {
        self.messages@.map_values(|m: OutMsg| m@)
    }
}

/// The answer to a query.
#[derive(Clone, Debug, PartialEq, Eq)]
pub enum QueryAnswer {
    StateInfo(crate::state::State),
    UserInfo(crate::state::UserInfo),
    Users(Vec<String>),
    CheckWithdraw(bool),
}

} // verus!
