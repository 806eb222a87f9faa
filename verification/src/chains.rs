//! Error types reported by the per-chain contract clients. The clients
//! themselves (transaction submission, event monitoring) are external
//! collaborators; only the errors they surface to the orchestrator are
//! modelled here.

use vstd::prelude::*;

verus! {

/// Failure of a counterparty-side contract operation.
#[derive(Clone, Copy, Debug, PartialEq, Eq, Structural)]
pub enum MoveCounterpartyError {
    TransferNotFound,
    InvalidHashLockPreImage,
}

impl MoveCounterpartyError {
    /// A short description of the failure.
    pub fn message(&self) -> (r: &'static str)
        ensures
            self is TransferNotFound ==> r@ == "Transfer not found"@,
            self is InvalidHashLockPreImage ==> r@ == "Invalid hash lock pre image (secret)"@,
    {
        match self {
            MoveCounterpartyError::TransferNotFound => "Transfer not found",
            MoveCounterpartyError::InvalidHashLockPreImage => "Invalid hash lock pre image (secret)",
        }
    }
}

/// Failure of an initiator-side contract operation.
#[derive(Clone, Copy, Debug, PartialEq, Eq, Structural)]
pub enum EthInitiatorError {
    InitiateTransferError,
    TransferNotFound,
    InvalidHashLockPreImage,
}

impl EthInitiatorError {
    /// A short description of the failure.
    pub fn message(&self) -> (r: &'static str)
        ensures
            self is InitiateTransferError ==> r@ == "Failed to initiate bridge transfer"@,
            self is TransferNotFound ==> r@ == "Transfer not found"@,
            self is InvalidHashLockPreImage ==> r@ == "Invalid hash lock pre image (secret)"@,
    {
        match self {
            EthInitiatorError::InitiateTransferError => "Failed to initiate bridge transfer",
            EthInitiatorError::TransferNotFound => "Transfer not found",
            EthInitiatorError::InvalidHashLockPreImage => "Invalid hash lock pre image (secret)",
        }
    }
}

} // verus!
