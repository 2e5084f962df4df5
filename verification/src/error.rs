//! Why a request is refused.
use vstd::prelude::*;

verus! {

/// A failure reported by the host: a missing storage entry or an
/// address that the host does not accept.
#[derive(Clone, Debug, PartialEq, Eq)]
pub enum StdError {
    /// Nothing is stored under the key that was read.
    NotFound { kind: String },
    /// Any other failure, with the host's message.
    GenericErr { msg: String },
}

/// The reasons for which the sale refuses a request.
#[derive(Clone, Debug, PartialEq, Eq)]
pub enum ContractError {
    /// A failure reported by the host.
    Std(StdError),
    /// The sender may not make this request.
    Unauthorized {},
    /// Kept for compatibility of the error codes; no request gives it.
    WrongPortionError {},
    /// The coins sent do not pay for the tokens asked for.
    NotEnoughFunds {},
    /// The purchase would sell more tokens than the supply.
    InsufficientRemainingToken {},
    /// The purchase comes before the sale opens.
    PresaleNotStarted {},
    /// The withdrawal comes before the sale ends.
    PresaleNotFinished {},
    /// No vesting step has passed since the last payout.
    NotRemainingToken {},
    /// The sender never bought tokens.
    NotDeposited {},
    /// The sale would end before it starts.
    WrongSetTime {},
    /// The supply has already been minted.
    AlreadySent {},
}

/// Why a request is refused, seen as a mathematical value: a refusal by
/// the sale's rules, or the token contract's encoder failing with the given
/// text.
pub enum Refusal {
    Rule(ContractError),
    Encoding(Seq<char>),
}

/// Whether `res` is the refusal `r`: the error itself for a rule, or a
/// host error carrying the encoder's text.
pub open spec fn refused_as<T>(res: Result<T, ContractError>, r: Refusal) -> bool {
    match r {
        Refusal::Rule(e) => res == Err::<T, ContractError>(e),
        Refusal::Encoding(text) => res matches Err(ContractError::Std(StdError::GenericErr { msg }))
            && msg@ == text,
    }
}

} // verus!
