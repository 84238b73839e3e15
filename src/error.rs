use vstd::prelude::*;

verus! {

/// Declares the host framework's generic error, carried through unchanged.
#[verifier::external_type_specification]
#[verifier::external_body]
pub struct ExStdError(cosmwasm_std::StdError);

/// The ways an operation on the ledger can fail.
#[derive(Debug, PartialEq)]
pub enum ContractError {
    /// A failure reported by the host (storage, address handling, encoding).
    Std(cosmwasm_std::StdError),
    /// The caller lacks the role the operation asks for.
    Unauthorized {},
    ClientNotExist {},
    CarNotExist {},
    RentNotExist {},
    CarExist {},
    ClientExist {},
    ClientNotVerified {},
    InsufficientFunds {},
    RentClosed {},
    /// A rental window whose end comes before its start.
    InvalidPeriod {},
    /// No funds in the configured denomination were attached.
    NoFunds {},
    /// An amount or counter left the range of its integer type.
    Overflow {},
}

} // verus!
