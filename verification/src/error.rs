//! What can go wrong with an agreement's transitions.

use vstd::prelude::*;

verus! {

/// A rule of the agreement that a request has broken.
#[derive(Clone, Copy, Debug, PartialEq, Eq, Structural)]
pub enum ErrorCode {
    /// The request names no known instruction.
    InvalidInstruction,
    /// A rent payment of the wrong amount.
    IncorrectPaymentAmount,
    /// A rent payment although nothing is left to pay.
    RentAlreadyFullyPaid,
    /// A security deposit although the agreement is not waiting for one.
    SecurityAlreadyDeposited,
    /// A request on an agreement that was terminated.
    RentAgreementTerminated,
    /// A request that the agreement's status does not admit.
    InvalidAgreementStatus,
    /// A parameter of the request is out of its range.
    InvalidInstructionParameter,
}

/// Why a deposit did not take place.
///
/// A broken rule and a failed transfer are kept apart, so that a caller can
/// tell a refused request from one that the transfer service let down.
#[derive(Clone, Copy, Debug, PartialEq, Eq, Structural)]
pub enum DepositError {
    /// The agreement refused the deposit; no transfer was asked for.
    Rejected(ErrorCode),
    /// The agreement took the deposit, the transfer failed, and the record
    /// was put back as it was.
    TransferFailed,
}

} // verus!
