//! The agreement record: what one rent agreement holds, and the questions
//! that can be asked of its status.

use vstd::prelude::*;
use anchor_lang::prelude::Pubkey;
use crate::status::AgreementStatus;

verus! {

/// `solana_program::pubkey::Pubkey`, the address of an account: 32 bytes
/// that this library stores, hands on and compares, and never looks into.
#[verifier::external_type_specification]
#[verifier::external_body]
pub struct ExPubkey(Pubkey);

/// One rent agreement between an owner and a tenant.
#[derive(Clone, Copy, Debug, PartialEq, Eq)]
pub struct RentAgreementAccount {
    /// Where the agreement stands in its lifecycle.
    pub status: AgreementStatus,
    /// The property owner's address. Fixed when the agreement is made.
    pub owner_pubkey: Pubkey,
    /// The tenant's address. Fixed when the agreement is made.
    pub tenant_pubkey: Pubkey,
    /// The least security deposit the tenant is asked for, in the smallest
    /// unit of the currency.
    pub security_deposit: u64,
    /// The rent for one month, in the smallest unit of the currency.
    pub rent_amount: u64,
    /// The length of the contract in months. Fixed when the agreement is made.
    pub duration: u8,
    /// How many monthly payments are still due.
    pub remaining_payments: u8,
    /// The security deposit as it was recorded when the tenant made it.
    pub remaining_security_deposit: u64,
    /// The month in which the contract starts, 1 to 12.
    pub start_month: u8,
    /// The year in which the contract starts.
    pub start_year: u16,
    /// The extension the tenant has asked for, in months; 0 when none is asked.
    pub duration_extension_request: u8,
}

impl RentAgreementAccount {
    /// The record after a deposit of `amount` was taken: the amount is
    /// recorded as it came, the contract is running, and nothing else differs.
    pub open spec fn deposited(self, amount: u64) -> RentAgreementAccount {
        RentAgreementAccount {
            status: AgreementStatus::Active,
            remaining_security_deposit: amount,
            ..self
        }
    }

    /// The parties and the length of the contract are the same in both records.
    pub open spec fn same_terms(self, other: RentAgreementAccount) -> bool {
        &&& self.owner_pubkey == other.owner_pubkey
        &&& self.tenant_pubkey == other.tenant_pubkey
        &&& self.duration == other.duration
    }

    /// The agreement awaits the tenant's security deposit.
    pub open spec fn spec_is_security_deposit_pending(&self) -> bool {
        self.status == AgreementStatus::DepositPending
    }

    /// The agreement has run its full course.
    pub open spec fn spec_is_completed(&self) -> bool {
        self.status == AgreementStatus::Completed
    }

    /// The agreement was ended before its time.
    pub open spec fn spec_is_terminated(&self) -> bool {
        self.status == AgreementStatus::Terminated
    }

    /// Is the tenant's security deposit still awaited?
    #[verifier::when_used_as_spec(spec_is_security_deposit_pending)]
    pub fn is_security_deposit_pending(&self) -> (pending: bool)
        ensures
            pending == self.spec_is_security_deposit_pending(),
            pending == (self.status == AgreementStatus::DepositPending),
    {
        matches!(self.status, AgreementStatus::DepositPending)
    }

    /// Were all payments of the agreed duration made?
    #[verifier::when_used_as_spec(spec_is_completed)]
    pub fn is_completed(&self) -> (completed: bool)
        ensures
            completed == self.spec_is_completed(),
            completed == (self.status == AgreementStatus::Completed),
    {
        matches!(self.status, AgreementStatus::Completed)
    }

    /// Was the agreement terminated?
    #[verifier::when_used_as_spec(spec_is_terminated)]
    pub fn is_terminated(&self) -> (terminated: bool)
        ensures
            terminated == self.spec_is_terminated(),
            terminated == (self.status == AgreementStatus::Terminated),
    {
        matches!(self.status, AgreementStatus::Terminated)
    }
}

/// The three questions go by the status alone and agree with the number it
/// is stored under: a record awaits its deposit exactly under 1, is completed
/// exactly under 3 and terminated exactly under 4. So no record answers yes to
/// two of them, and one that is new or running answers no to all three.
pub proof fn lemma_status_questions_follow_status(record: RentAgreementAccount)
    ensures
        record.spec_is_security_deposit_pending() <==> record.status.spec_code() == 1,
        record.spec_is_completed() <==> record.status.spec_code() == 3,
        record.spec_is_terminated() <==> record.status.spec_code() == 4,
        !(record.spec_is_security_deposit_pending() && record.spec_is_completed()),
        !(record.spec_is_security_deposit_pending() && record.spec_is_terminated()),
        !(record.spec_is_completed() && record.spec_is_terminated()),
        record.spec_is_completed() || record.spec_is_terminated()
            <==> record.status.spec_is_terminal(),
        record.status == AgreementStatus::Uninitialized || record.status == AgreementStatus::Active
            <==> !record.spec_is_security_deposit_pending() && !record.spec_is_completed()
            && !record.spec_is_terminated(),
{
}

/// Two records of one status answer the three questions alike, whatever
/// else they hold.
pub proof fn lemma_status_questions_read_status_only(
    a: RentAgreementAccount,
    b: RentAgreementAccount,
)
    requires
        a.status == b.status,
    ensures
        a.spec_is_security_deposit_pending() == b.spec_is_security_deposit_pending(),
        a.spec_is_completed() == b.spec_is_completed(),
        a.spec_is_terminated() == b.spec_is_terminated(),
{
}

} // verus!
