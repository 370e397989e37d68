use vstd::prelude::*;

verus! {

/// The four families of refusal.
#[derive(Clone, Copy, Debug, PartialEq, Eq, Structural)]
pub enum ErrorKind {
    /// A deposit or a due date is missing or wrong.
    Validation,
    /// The caller may not perform the action.
    Authorization,
    /// The action is not valid from the current status.
    State,
    /// The terms of a linked instance could not be had.
    ExternalCall,
}

/// Why an invocation was refused. A refused invocation changes nothing.
#[derive(Clone, Copy, Debug, PartialEq, Eq, Structural)]
pub enum ContractError {
    MissingDeposit,
    DepositMismatch,
    PastDue,
    InvalidDueDate,
    DueDateNotInFuture,
    Unauthorized,
    NotPendingCapital,
    CapitalNotCommitted,
    AlreadyCalled,
    AlreadyCancelled,
    LinkedTermsUnavailable,
}

impl ContractError {
    pub open spec fn spec_kind(self) -> ErrorKind {
        match self {
            ContractError::MissingDeposit
            | ContractError::DepositMismatch
            | ContractError::PastDue
            | ContractError::InvalidDueDate
            | ContractError::DueDateNotInFuture => ErrorKind::Validation,
            ContractError::Unauthorized => ErrorKind::Authorization,
            ContractError::NotPendingCapital
            | ContractError::CapitalNotCommitted
            | ContractError::AlreadyCalled
            | ContractError::AlreadyCancelled => ErrorKind::State,
            ContractError::LinkedTermsUnavailable => ErrorKind::ExternalCall,
        }
    }

    pub fn kind(&self) -> (r: ErrorKind)
        ensures
            r == self.spec_kind(),
    {
        match self {
            ContractError::MissingDeposit
            | ContractError::DepositMismatch
            | ContractError::PastDue
            | ContractError::InvalidDueDate
            | ContractError::DueDateNotInFuture => ErrorKind::Validation,
            ContractError::Unauthorized => ErrorKind::Authorization,
            ContractError::NotPendingCapital
            | ContractError::CapitalNotCommitted
            | ContractError::AlreadyCalled
            | ContractError::AlreadyCancelled => ErrorKind::State,
            ContractError::LinkedTermsUnavailable => ErrorKind::ExternalCall,
        }
    }

    /// A human-readable reason.
    pub fn reason(&self) -> String {
        let text = match self {
            ContractError::MissingDeposit => "no deposit was attached",
            ContractError::DepositMismatch => "deposit does not match the required asset",
            ContractError::PastDue => "past due",
            ContractError::InvalidDueDate => "due date is not a valid timestamp",
            ContractError::DueDateNotInFuture => "due date must be in the future",
            ContractError::Unauthorized => "caller is not permitted to perform this action",
            ContractError::NotPendingCapital => "contract is no longer pending capital",
            ContractError::CapitalNotCommitted => "capital not committed",
            ContractError::AlreadyCalled => "capital already called",
            ContractError::AlreadyCancelled => "already cancelled",
            ContractError::LinkedTermsUnavailable => "terms of the linked instance are unavailable",
        };
        text.to_owned()
    }
}

} // verus!
