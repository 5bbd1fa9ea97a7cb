//! Failures an invocation can end in.

use vstd::prelude::*;

verus! {

/// Failures raised by the program itself, as opposed to the layers it calls.
#[derive(Clone, Copy, Debug, PartialEq, Eq, Structural)]
pub enum AppError {
    /// Catch-all for a protocol-level condition no other layer reports.
    /// No step of the issuance sequence raises it.
    CustomError,
}

impl AppError {
    /// Text shown to the caller with the error.
    pub fn message(&self) -> (text: &'static str)
        ensures
            text@ == "Custom error message"@,
    {
        match self {
            AppError::CustomError => "Custom error message",
        }
    }
}

/// Why an invocation, or a single operation of one of the layers below it,
/// was rejected. The layers' own failures reach the caller unchanged.
#[derive(Clone, Copy, Debug, PartialEq, Eq, Structural)]
pub enum Failure {
    /// Ledger: no address can be derived from the seeds.
    InvalidSeeds,
    /// Ledger: the target address is already occupied.
    AccountAlreadyExists,
    /// Token layer: the signer is not the current holder of the authority
    /// that the operation needs.
    AuthorityMismatch,
    /// Token layer: the holding account is frozen.
    AccountFrozen,
    /// Token layer: units were to be minted into an account that holds some.
    BalanceNotEmpty,
    /// Token layer: the holding account has fewer units than were to move.
    InsufficientFunds,
    /// Token layer: a unit count left the range of the counter.
    Overflow,
    /// Registry: name, symbol or URI is longer than the registry admits.
    MalformedInput,
    /// Program: a failure of its own.
    App(AppError),
}

} // verus!
