//! The ways an operation can be refused.

use vstd::prelude::*;

verus! {

/// Why an operation was refused. A refused operation changes nothing.
#[derive(Clone, Copy, Debug, PartialEq, Eq, Structural)]
pub enum ErrorCode {
    /// The asset type given is not the governing asset of the realm.
    InvalidMint,
    /// The ledger belongs to another participant than the one given.
    InvalidAuthority,
    /// The ledger belongs to another registrar than the one given.
    InvalidRegistrar,
    /// The token account given is not the custody vault of the registrar.
    InvalidVault,
    /// An account is not at the address that its seeds derive.
    InvalidAddress,
    /// A withdrawal in the slot of the latest deposit.
    SameStepDepositWithdraw,
    /// A ledger that still holds a balance cannot be closed.
    NonZeroBalance,
    /// The participant did not sign.
    MissingSignature,
    /// The ledger must be created by a top-level instruction of this program.
    ForbiddenIndirectCall,
    /// The governance engine does not let the participant withdraw now.
    WithdrawalRestricted,
    /// The balance would exceed what the ledger can hold.
    ArithmeticOverflow,
    /// The withdrawal asks for more than the ledger holds.
    InsufficientBalance,
    /// The record to create is there already.
    AlreadyExists,
    /// A record that the operation works on does not exist.
    NotFound,
    /// The token program found too few tokens in the account that gives.
    InsufficientFunds,
    /// The token program did not accept who authorised the transfer.
    Unauthorized,
}

/// The four families of refusals.
#[derive(Clone, Copy, Debug, PartialEq, Eq, Structural)]
pub enum ErrorKind {
    /// Arguments that are malformed or do not belong together.
    Validation,
    /// The operation comes at the wrong point of the ledger's life.
    State,
    /// The caller may not do this.
    Authorization,
    /// A balance, a bound or an address is exhausted or taken.
    Resource,
}

impl ErrorCode {
    /// The family of the refusal.
    pub open spec fn spec_kind(self) -> ErrorKind {
        match self {
            ErrorCode::InvalidMint
            | ErrorCode::InvalidAuthority
            | ErrorCode::InvalidRegistrar
            | ErrorCode::InvalidVault
            | ErrorCode::InvalidAddress => ErrorKind::Validation,
            ErrorCode::SameStepDepositWithdraw | ErrorCode::NonZeroBalance => ErrorKind::State,
            ErrorCode::MissingSignature
            | ErrorCode::ForbiddenIndirectCall
            | ErrorCode::WithdrawalRestricted
            | ErrorCode::Unauthorized => ErrorKind::Authorization,
            ErrorCode::ArithmeticOverflow
            | ErrorCode::InsufficientBalance
            | ErrorCode::AlreadyExists
            | ErrorCode::NotFound
            | ErrorCode::InsufficientFunds => ErrorKind::Resource,
        }
    }

    /// The family of the refusal.
    pub fn kind(&self) -> (k: ErrorKind)
        ensures
            k == self.spec_kind(),
    {
        match self {
            ErrorCode::InvalidMint => ErrorKind::Validation,
            ErrorCode::InvalidAuthority => ErrorKind::Validation,
            ErrorCode::InvalidRegistrar => ErrorKind::Validation,
            ErrorCode::InvalidVault => ErrorKind::Validation,
            ErrorCode::InvalidAddress => ErrorKind::Validation,
            ErrorCode::SameStepDepositWithdraw => ErrorKind::State,
            ErrorCode::NonZeroBalance => ErrorKind::State,
            ErrorCode::MissingSignature => ErrorKind::Authorization,
            ErrorCode::ForbiddenIndirectCall => ErrorKind::Authorization,
            ErrorCode::WithdrawalRestricted => ErrorKind::Authorization,
            ErrorCode::ArithmeticOverflow => ErrorKind::Resource,
            ErrorCode::InsufficientBalance => ErrorKind::Resource,
            ErrorCode::AlreadyExists => ErrorKind::Resource,
            ErrorCode::NotFound => ErrorKind::Resource,
            ErrorCode::InsufficientFunds => ErrorKind::Resource,
            ErrorCode::Unauthorized => ErrorKind::Authorization,
        }
    }
}

} // verus!
