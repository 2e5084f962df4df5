//! Calls on the token contract, encoded in the token contract's wire
//! format.
use vstd::prelude::*;
use crate::msg::{Cw20Call, Cw20CallView};

verus! {

/// The bytes in which the token contract's message crate encodes `call`,
/// or the text of the error with which it refuses to.
pub uninterp spec fn cw20_encoding(call: Cw20CallView) -> Result<Seq<u8>, Seq<char>>;

/// Encodes `call` as `cosmwasm_std::to_binary` encodes the corresponding
/// `cw20::Cw20ExecuteMsg`. Trusted: the bytes are named by `cw20_encoding`,
/// not proved, and nothing is said of which bytes they are. The encoding
/// succeeds: the JSON serialiser writes strings, decimal amounts and
/// struct variants without any failure path.
#[verifier::external_body]
pub(crate) fn encode_cw20(call: &Cw20Call) -> (res: Result<Vec<u8>, String>)
    ensures
        res is Ok,
        match res {
            Ok(bytes) => cw20_encoding(call@) == Ok::<Seq<u8>, Seq<char>>(bytes@),
            Err(text) => cw20_encoding(call@) == Err::<Seq<u8>, Seq<char>>(text@),
        },
{
    let msg = match call {
        Cw20Call::Mint { recipient, amount } => cw20::Cw20ExecuteMsg::Mint {
            recipient: recipient.clone(),
            amount: cosmwasm_std::Uint128::new(*amount),
        },
        Cw20Call::Transfer { recipient, amount } => cw20::Cw20ExecuteMsg::Transfer {
            recipient: recipient.clone(),
            amount: cosmwasm_std::Uint128::new(*amount),
        },
    };
    #[allow(deprecated)]
    cosmwasm_std::to_binary(&msg).map(|b| b.to_vec()).map_err(|e| e.to_string())
}

} // verus!
