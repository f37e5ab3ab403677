use anchor_lang::prelude::Pubkey;
use trusted_properties::{
    deposit_security, settle_deposit, AgreementStatus, DepositError, DepositSecurity, ErrorCode,
    RentAgreementAccount, TransferOutcome, TransferRequest,
};

const STATUSES: [AgreementStatus; 5] = [
    AgreementStatus::Uninitialized,
    AgreementStatus::DepositPending,
    AgreementStatus::Active,
    AgreementStatus::Completed,
    AgreementStatus::Terminated,
];

const OUTCOMES: [TransferOutcome; 2] = [TransferOutcome::Completed, TransferOutcome::Failed];

fn agreement(status: AgreementStatus) -> DepositSecurity {
    DepositSecurity {
        rent_agreement_account: RentAgreementAccount {
            status,
            owner_pubkey: Pubkey::new_from_array([10; 32]),
            tenant_pubkey: Pubkey::new_from_array([11; 32]),
            security_deposit: 5000,
            rent_amount: 900,
            duration: 6,
            remaining_payments: 6,
            remaining_security_deposit: 0,
            start_month: 12,
            start_year: 2023,
            duration_extension_request: 0,
        },
        rent_agreement_address: Pubkey::new_from_array([12; 32]),
        tenant: Pubkey::new_from_array([11; 32]),
        token_program: Pubkey::new_from_array([13; 32]),
    }
}

/// One whole deposit: the request, the transfer as `outcome` says it went,
/// and the settlement. Gives what the caller is told and the transfers asked for.
fn deposit(
    accounts: &mut DepositSecurity,
    amount: u64,
    outcome: TransferOutcome,
) -> (Result<(), DepositError>, Vec<TransferRequest>) {
    match deposit_security(accounts, amount) {
        Err(code) => (Err(DepositError::Rejected(code)), Vec::new()),
        Ok(pending) => {
            let asked = vec![pending.request];
            (settle_deposit(accounts, pending, outcome), asked)
        }
    }
}

#[test]
fn whole_deposit_asks_for_one_transfer_from_tenant_to_escrow() {
    let mut accounts = agreement(AgreementStatus::DepositPending);
    let (result, asked) = deposit(&mut accounts, 5000, TransferOutcome::Completed);
    assert_eq!(result, Ok(()));
    assert_eq!(asked.len(), 1);
    assert_eq!(asked[0].amount, 5000);
    assert_eq!(asked[0].from, Pubkey::new_from_array([11; 32]));
    assert_eq!(asked[0].to, Pubkey::new_from_array([12; 32]));
    assert_eq!(asked[0].authority, Pubkey::new_from_array([11; 32]));
    assert_eq!(asked[0].program, Pubkey::new_from_array([13; 32]));
    assert_eq!(accounts.rent_agreement_account.status, AgreementStatus::Active);
    assert_eq!(accounts.rent_agreement_account.remaining_security_deposit, 5000);
}

#[test]
fn refused_deposit_asks_for_no_transfer() {
    for status in STATUSES {
        if status == AgreementStatus::DepositPending {
            continue;
        }
        for outcome in OUTCOMES {
            let mut accounts = agreement(status);
            let before = accounts;
            let (result, asked) = deposit(&mut accounts, 1000, outcome);
            assert_eq!(
                result,
                Err(DepositError::Rejected(ErrorCode::SecurityAlreadyDeposited))
            );
            assert!(asked.is_empty());
            assert_eq!(accounts, before);
        }
    }
}

#[test]
fn deposit_succeeds_only_when_pending_and_transferred() {
    for status in STATUSES {
        for outcome in OUTCOMES {
            let mut accounts = agreement(status);
            let (result, _) = deposit(&mut accounts, 5000, outcome);
            let expected = status == AgreementStatus::DepositPending
                && outcome == TransferOutcome::Completed;
            assert_eq!(result.is_ok(), expected);
        }
    }
}

#[test]
fn failed_deposit_leaves_no_trace() {
    for status in STATUSES {
        for outcome in OUTCOMES {
            for amount in [0u64, 3000, 5000, u64::MAX] {
                let mut accounts = agreement(status);
                let before = accounts;
                let (result, _) = deposit(&mut accounts, amount, outcome);
                if result.is_err() {
                    assert_eq!(accounts, before);
                }
            }
        }
    }
}

#[test]
fn failed_transfer_is_told_apart_from_a_refusal() {
    let mut accounts = agreement(AgreementStatus::DepositPending);
    let (failed, asked) = deposit(&mut accounts, 5000, TransferOutcome::Failed);
    assert_eq!(failed, Err(DepositError::TransferFailed));
    assert_eq!(asked.len(), 1);

    let mut accounts = agreement(AgreementStatus::Terminated);
    let (refused, asked) = deposit(&mut accounts, 5000, TransferOutcome::Failed);
    assert_eq!(refused, Err(DepositError::Rejected(ErrorCode::SecurityAlreadyDeposited)));
    assert!(asked.is_empty());
    assert_ne!(failed, refused);
}

#[test]
fn two_deposits_in_a_row_succeed_at_most_once() {
    for status in STATUSES {
        for first_outcome in OUTCOMES {
            for second_outcome in OUTCOMES {
                for second_amount in [0u64, 5000, 7000] {
                    let mut accounts = agreement(status);
                    let (first, _) = deposit(&mut accounts, 5000, first_outcome);
                    let between = accounts;
                    let (second, asked) = deposit(&mut accounts, second_amount, second_outcome);
                    assert!(!(first.is_ok() && second.is_ok()));
                    if first.is_ok() {
                        assert_eq!(
                            second,
                            Err(DepositError::Rejected(ErrorCode::SecurityAlreadyDeposited))
                        );
                        assert!(asked.is_empty());
                        assert_eq!(accounts, between);
                    }
                }
            }
        }
    }
}

#[test]
fn deposit_never_turns_the_lifecycle_back() {
    for status in STATUSES {
        for outcome in OUTCOMES {
            let mut accounts = agreement(status);
            let before = accounts.rent_agreement_account;
            let _ = deposit(&mut accounts, 5000, outcome);
            let after = accounts.rent_agreement_account;
            assert!(after.status.code() >= before.status.code());
            if before.status.is_terminal() {
                assert_eq!(after, before);
            }
            assert_eq!(after.owner_pubkey, before.owner_pubkey);
            assert_eq!(after.tenant_pubkey, before.tenant_pubkey);
            assert_eq!(after.duration, before.duration);
        }
    }
}
