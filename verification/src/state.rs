//! What the sale keeps between requests: its configuration and the
//! ledger entry of each buyer.
use vstd::prelude::*;

verus! {

/// The sale's configuration and its running total of tokens sold.
///
/// Token amounts are whole base units of the sold token; times are
/// seconds since the Unix epoch.
#[derive(Clone, Debug, PartialEq, Eq)]
pub struct State {
    /// The account allowed to reconfigure the sale and to mint the supply.
    pub owner: String,
    /// The token contract that mints and pays out the sold tokens.
    pub token_address: String,
    /// First second at which tokens can be bought.
    pub presale_start: u64,
    /// Second from which tokens can be withdrawn.
    pub presale_end: u64,
    /// Number of tokens offered in the sale.
    pub total_supply: u128,
    /// Length of the vesting schedule.
    pub vesting_period: u64,
    /// Length of one vesting step.
    pub vesting_step_period: u64,
    /// Price, in millionths of a unit of `denom`, of one token.
    pub token_price: u128,
    /// Tokens bought so far.
    pub token_sold_amount: u128,
    /// The coin in which tokens are paid for.
    pub denom: String,
    /// The account that receives the payments and the unsold tokens.
    pub admin_wallet: String,
    /// Whether the supply has still to be minted to the sale.
    pub can_send: bool,
}

/// The ledger entry of one buyer.
#[derive(Clone, Debug, PartialEq, Eq)]
pub struct UserInfo {
    /// The buyer's account.
    pub address: String,
    /// Tokens bought by this account.
    pub total_token: u128,
    /// Tokens paid out to this account so far.
    pub received_token: u128,
    /// The time from which the next vesting steps are counted.
    pub last_received_time: u64,
}

} // verus!
