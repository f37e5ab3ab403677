//! The deposit transition: the tenant pays the security deposit and the
//! contract starts running.
//!
//! The transition has two steps around one transfer. [`deposit_security`]
//! checks the agreement, records the deposit and says which transfer is due.
//! The caller has the transfer carried out and reports how it went to
//! [`settle_deposit`], which keeps the record on success and puts it back as it
//! was on failure. [`deposit_transaction`] states the two steps as one.

use vstd::prelude::*;
use anchor_lang::prelude::Pubkey;
use crate::account::RentAgreementAccount;
use crate::error::{DepositError, ErrorCode};
use crate::status::AgreementStatus;
use crate::transfer::{TransferOutcome, TransferRequest};

verus! {

/// The accounts that take part in a deposit.
#[derive(Clone, Copy, Debug, PartialEq, Eq)]
pub struct DepositSecurity {
    /// The agreement's record.
    pub rent_agreement_account: RentAgreementAccount,
    /// The address of the account that holds the record. The deposit is kept
    /// there in escrow.
    pub rent_agreement_address: Pubkey,
    /// The address of the tenant's account, which pays and signs.
    pub tenant: Pubkey,
    /// The address of the token program.
    pub token_program: Pubkey,
}

/// A deposit that was recorded and whose transfer is still to be carried out.
#[derive(Clone, Copy, Debug, PartialEq, Eq)]
pub struct PendingDeposit {
    /// The record as it was before the deposit was recorded.
    pub before: RentAgreementAccount,
    /// The transfer that is due.
    pub request: TransferRequest,
}

impl DepositSecurity {
    /// The transfer that a deposit of `amount` calls for: from the tenant's
    /// account to the agreement's, signed by the tenant.
    pub open spec fn spec_transfer_request(self, amount: u64) -> TransferRequest {
        TransferRequest {
            program: self.token_program,
            from: self.tenant,
            to: self.rent_agreement_address,
            authority: self.tenant,
            amount,
        }
    }

    /// These accounts with another record in place of theirs.
    pub open spec fn with_record(self, record: RentAgreementAccount) -> DepositSecurity {
        DepositSecurity { rent_agreement_account: record, ..self }
    }

    /// The transfer that a deposit of `amount` calls for.
    pub fn transfer_request(&self, amount: u64) -> (request: TransferRequest)
        ensures
            request == self.spec_transfer_request(amount),
    {
        TransferRequest {
            program: self.token_program,
            from: self.tenant,
            to: self.rent_agreement_address,
            authority: self.tenant,
            amount,
        }
    }
}

/// What [`deposit_security`] answers: the transfer that is due when the
/// agreement awaits its deposit, and a refusal in every other status.
pub open spec fn deposit_answer(accounts: DepositSecurity, amount: u64) -> Result<
    PendingDeposit,
    ErrorCode,
> {
    if accounts.rent_agreement_account.status == AgreementStatus::DepositPending {
        Ok(
            PendingDeposit {
                before: accounts.rent_agreement_account,
                request: accounts.spec_transfer_request(amount),
            },
        )
    } else {
        Err(ErrorCode::SecurityAlreadyDeposited)
    }
}

/// The accounts as [`deposit_security`] leaves them: with the deposit
/// recorded when the agreement awaited it, and untouched in every other
/// status.
pub open spec fn after_deposit(accounts: DepositSecurity, amount: u64) -> DepositSecurity {
    if accounts.rent_agreement_account.status == AgreementStatus::DepositPending {
        accounts.with_record(accounts.rent_agreement_account.deposited(amount))
    } else {
        accounts
    }
}

/// The accounts as [`settle_deposit`] leaves them: as they are when the
/// transfer was made, and with the earlier record back in place when it
/// failed.
pub open spec fn after_settlement(
    accounts: DepositSecurity,
    pending: PendingDeposit,
    outcome: TransferOutcome,
) -> DepositSecurity {
    match outcome {
        TransferOutcome::Completed => accounts,
        TransferOutcome::Failed => accounts.with_record(pending.before),
    }
}

/// What [`settle_deposit`] answers.
pub open spec fn settlement_answer(outcome: TransferOutcome) -> Result<(), DepositError> {
    match outcome {
        TransferOutcome::Completed => Ok(()),
        TransferOutcome::Failed => Err(DepositError::TransferFailed),
    }
}

/// A whole deposit: [`deposit_security`], then, where it asked for a
/// transfer, [`settle_deposit`] with the way that transfer went. Gives the
/// accounts as they are left and what the caller is told.
pub open spec fn deposit_transaction(
    accounts: DepositSecurity,
    amount: u64,
    outcome: TransferOutcome,
) -> (DepositSecurity, Result<(), DepositError>) {
    match deposit_answer(accounts, amount) {
        Ok(pending) => (
            after_settlement(after_deposit(accounts, amount), pending, outcome),
            settlement_answer(outcome),
        ),
        Err(code) => (after_deposit(accounts, amount), Err(DepositError::Rejected(code))),
    }
}

/// Records the tenant's security deposit.
///
/// The agreement must be waiting for its deposit. Then the amount is recorded
/// as it came, whether or not it matches the deposit asked for, the contract
/// starts running, and the answer names the one transfer that is due and keeps
/// the earlier record for [`settle_deposit`]. In every other status the call is
/// refused with `SecurityAlreadyDeposited`, nothing is changed and no transfer
/// is due.
pub fn deposit_security(accounts: &mut DepositSecurity, security_deposit_amount: u64) -> (result:
    Result<PendingDeposit, ErrorCode>)
    ensures
        result == deposit_answer(*old(accounts), security_deposit_amount),
        *final(accounts) == after_deposit(*old(accounts), security_deposit_amount),
        result is Ok <==> old(accounts).rent_agreement_account.status
            == AgreementStatus::DepositPending,
        result is Ok ==> final(accounts).rent_agreement_account.status == AgreementStatus::Active
            && final(accounts).rent_agreement_account.remaining_security_deposit
            == security_deposit_amount,
        result is Err ==> result == Err::<PendingDeposit, ErrorCode>(
            ErrorCode::SecurityAlreadyDeposited,
        ) && *final(accounts) == *old(accounts),
{
    if !accounts.rent_agreement_account.is_security_deposit_pending() {
        return Err(ErrorCode::SecurityAlreadyDeposited);
    }
    let before = accounts.rent_agreement_account;
    accounts.rent_agreement_account.remaining_security_deposit = security_deposit_amount;
    accounts.rent_agreement_account.status = AgreementStatus::Active;
    let request = accounts.transfer_request(security_deposit_amount);
    Ok(PendingDeposit { before, request })
}

/// Closes a deposit once the transfer it asked for was tried.
///
/// After a transfer that was made the record stays as [`deposit_security`]
/// left it. After one that failed the record is put back as it was before the
/// deposit, so that nothing of the attempt can be seen, and the failure is
/// reported as `TransferFailed`.
pub fn settle_deposit(
    accounts: &mut DepositSecurity,
    pending: PendingDeposit,
    outcome: TransferOutcome,
) -> (result: Result<(), DepositError>)
    ensures
        result == settlement_answer(outcome),
        *final(accounts) == after_settlement(*old(accounts), pending, outcome),
{
    match outcome {
        TransferOutcome::Completed => Ok(()),
        TransferOutcome::Failed => {
            accounts.rent_agreement_account = pending.before;
            Err(DepositError::TransferFailed)
        },
    }
}

/// A deposit succeeds exactly when the agreement awaited it and the transfer
/// was made. It then records the amount and starts the contract, and changes
/// nothing else.
pub proof fn lemma_deposit_succeeds_iff_pending(
    accounts: DepositSecurity,
    amount: u64,
    outcome: TransferOutcome,
)
    ensures
        deposit_transaction(accounts, amount, outcome).1 is Ok <==> (
        accounts.rent_agreement_account.status == AgreementStatus::DepositPending && outcome
            == TransferOutcome::Completed),
        deposit_transaction(accounts, amount, outcome).1 is Ok ==> deposit_transaction(
            accounts,
            amount,
            outcome,
        ).0 == accounts.with_record(accounts.rent_agreement_account.deposited(amount)),
{
}

/// In every status but `DepositPending` a deposit is refused with
/// `SecurityAlreadyDeposited`, whatever the amount and however a transfer
/// would have gone, and the accounts stay exactly as they were.
pub proof fn lemma_deposit_refused_unless_pending(
    accounts: DepositSecurity,
    amount: u64,
    outcome: TransferOutcome,
)
    requires
        accounts.rent_agreement_account.status != AgreementStatus::DepositPending,
    ensures
        deposit_transaction(accounts, amount, outcome) == (
            accounts,
            Err::<(), DepositError>(DepositError::Rejected(ErrorCode::SecurityAlreadyDeposited)),
        ),
{
}

/// A deposit is all or nothing: when it fails, for a broken rule or for a
/// failed transfer, the accounts are exactly as they were before it.
pub proof fn lemma_failed_deposit_leaves_no_trace(
    accounts: DepositSecurity,
    amount: u64,
    outcome: TransferOutcome,
)
    ensures
        deposit_transaction(accounts, amount, outcome).1 is Err ==> deposit_transaction(
            accounts,
            amount,
            outcome,
        ).0 == accounts,
        outcome == TransferOutcome::Failed ==> deposit_transaction(accounts, amount, outcome).1 is Err,
{
}

/// Of two deposits in a row on one agreement at most one succeeds: after a
/// deposit that succeeded, the next is refused with
/// `SecurityAlreadyDeposited` whatever its amount, and changes nothing.
pub proof fn lemma_deposit_is_single_shot(
    accounts: DepositSecurity,
    first_amount: u64,
    first_outcome: TransferOutcome,
    second_amount: u64,
    second_outcome: TransferOutcome,
)
    ensures
        ({
            let first = deposit_transaction(accounts, first_amount, first_outcome);
            let second = deposit_transaction(first.0, second_amount, second_outcome);
            &&& !(first.1 is Ok && second.1 is Ok)
            &&& first.1 is Ok ==> second == (
                first.0,
                Err::<(), DepositError>(
                    DepositError::Rejected(ErrorCode::SecurityAlreadyDeposited),
                ),
            )
        }),
{
}

/// Recording a deposit twice in a row never succeeds twice: once a deposit
/// is recorded, a second one is refused with `SecurityAlreadyDeposited`
/// whatever its amount, before the first is settled as well as after, and
/// leaves the accounts as the first left them.
pub proof fn lemma_deposit_is_recorded_once(
    accounts: DepositSecurity,
    first_amount: u64,
    second_amount: u64,
)
    ensures
        ({
            let first = deposit_answer(accounts, first_amount);
            let between = after_deposit(accounts, first_amount);
            let second = deposit_answer(between, second_amount);
            &&& !(first is Ok && second is Ok)
            &&& first is Ok ==> second == Err::<PendingDeposit, ErrorCode>(
                ErrorCode::SecurityAlreadyDeposited,
            )
            &&& first is Ok ==> after_deposit(between, second_amount) == between
        }),
{
}

/// A deposit never turns the lifecycle back and never touches the terms: the
/// status stays or moves forward, an agreement that has ended stays as it is,
/// and the parties and the duration are kept.
pub proof fn lemma_deposit_moves_forward(
    accounts: DepositSecurity,
    amount: u64,
    outcome: TransferOutcome,
)
    ensures
        ({
            let before = accounts.rent_agreement_account;
            let after = deposit_transaction(accounts, amount, outcome).0.rent_agreement_account;
            &&& after.status == before.status || before.status.precedes(after.status)
            &&& before.status.spec_is_terminal() ==> after == before
            &&& after.same_terms(before)
        }),
{
}

} // verus!
