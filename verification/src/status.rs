//! The lifecycle of a rent agreement.

use vstd::prelude::*;

verus! {

/// Where an agreement stands in its lifecycle.
///
/// The variants are listed in lifecycle order: an agreement only ever moves
/// to a variant further down the list.
#[derive(Clone, Copy, Debug, PartialEq, Eq, Structural)]
pub enum AgreementStatus {
    /// The record exists but its terms have not been written yet.
    Uninitialized,
    /// The terms are set and the tenant still owes the security deposit.
    DepositPending,
    /// The deposit was made and the contract is running.
    Active,
    /// Every payment of the agreed duration was made.
    Completed,
    /// The contract was ended before its time.
    Terminated,
}

impl AgreementStatus {
    /// The number under which a status is stored: its place in the lifecycle.
    pub open spec fn spec_code(self) -> u8 {
        match self {
            AgreementStatus::Uninitialized => 0u8,
            AgreementStatus::DepositPending => 1u8,
            AgreementStatus::Active => 2u8,
            AgreementStatus::Completed => 3u8,
            AgreementStatus::Terminated => 4u8,
        }
    }

    /// The status stored under a number, if there is one.
    pub open spec fn spec_from_code(code: u8) -> Option<AgreementStatus> {
        if code == 0 {
            Some(AgreementStatus::Uninitialized)
        } else if code == 1 {
            Some(AgreementStatus::DepositPending)
        } else if code == 2 {
            Some(AgreementStatus::Active)
        } else if code == 3 {
            Some(AgreementStatus::Completed)
        } else if code == 4 {
            Some(AgreementStatus::Terminated)
        } else {
            None
        }
    }

    /// A terminal status admits no further transition.
    pub open spec fn spec_is_terminal(self) -> bool {
        self == AgreementStatus::Completed || self == AgreementStatus::Terminated
    }

    /// `self` comes strictly before `later` in the lifecycle. `Completed` and
    /// `Terminated` are both ends of it, and neither comes before the other.
    pub open spec fn precedes(self, later: AgreementStatus) -> bool {
        self.spec_code() < later.spec_code() && !self.spec_is_terminal()
    }

    /// The number under which this status is stored.
    #[verifier::when_used_as_spec(spec_code)]
    pub fn code(self) -> (code: u8)
        ensures
            code == self.spec_code(),
            code <= 4,
    {
        match self {
            AgreementStatus::Uninitialized => 0,
            AgreementStatus::DepositPending => 1,
            AgreementStatus::Active => 2,
            AgreementStatus::Completed => 3,
            AgreementStatus::Terminated => 4,
        }
    }

    /// Reads a stored number back: `Some` for 0 to 4, `None` for any other.
    #[verifier::when_used_as_spec(spec_from_code)]
    pub fn from_code(code: u8) -> (status: Option<AgreementStatus>)
        ensures
            status == Self::spec_from_code(code),
            status is Some <==> code <= 4,
            status matches Some(s) ==> s.spec_code() == code,
    {
        match code {
            0 => Some(AgreementStatus::Uninitialized),
            1 => Some(AgreementStatus::DepositPending),
            2 => Some(AgreementStatus::Active),
            3 => Some(AgreementStatus::Completed),
            4 => Some(AgreementStatus::Terminated),
            _ => None,
        }
    }

    /// Whether this status is one of the two ends of the lifecycle.
    #[verifier::when_used_as_spec(spec_is_terminal)]
    pub fn is_terminal(self) -> (terminal: bool)
        ensures
            terminal == self.spec_is_terminal(),
    {
        matches!(self, AgreementStatus::Completed | AgreementStatus::Terminated)
    }
}

/// Storing a status and reading it back gives the same status, and the five
/// statuses are stored under five different numbers.
pub proof fn lemma_code_round_trip(a: AgreementStatus, b: AgreementStatus)
    ensures
        AgreementStatus::spec_from_code(a.spec_code()) == Some(a),
        a.spec_code() == b.spec_code() ==> a == b,
{
}

/// The lifecycle order never turns back: nothing precedes itself, no two
/// statuses precede each other, and nothing follows a terminal status.
pub proof fn lemma_precedes_is_strict(a: AgreementStatus, b: AgreementStatus, c: AgreementStatus)
    ensures
        !a.precedes(a),
        a.precedes(b) ==> !b.precedes(a),
        a.precedes(b) && b.precedes(c) ==> a.precedes(c),
        a.spec_is_terminal() ==> !a.precedes(b),
{
}

} // verus!
