//! Escrow-backed rent agreements: the agreement record, its lifecycle and the
//! deposit transition, with every rule stated as a contract and proved.
//!
//! The library decides; it moves no value. A transition checks the record,
//! changes it and names the transfer that is due. The caller has the transfer
//! carried out and reports how it went.

pub mod account;
pub mod deposit;
pub mod error;
pub mod status;
pub mod transfer;

pub use account::RentAgreementAccount;
pub use deposit::{deposit_security, settle_deposit, DepositSecurity, PendingDeposit};
pub use error::{DepositError, ErrorCode};
pub use status::AgreementStatus;
pub use transfer::{TransferOutcome, TransferRequest};
