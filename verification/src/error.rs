use vstd::prelude::*;

verus! {

/// Why the ledger turned a call down.
#[derive(Clone, Copy, Debug, PartialEq, Eq, Structural)]
pub enum LedgerError {
    /// The command id is already in use.
    DuplicateId,
    /// The amount of product is zero.
    InvalidQuantity,
    /// The price per product is zero.
    InvalidPrice,
    /// The attached deposit does not cover what the command requires.
    InsufficientDeposit,
    /// No such command, or the command carries no certification section.
    NotFound,
    /// The caller may not perform this operation.
    Unauthorized,
    /// A field of the payload is malformed.
    InvalidPayload,
}

impl LedgerError {
    /// The name of the error kind, as callers report it.
    pub fn name(&self) -> (s: &'static str)
        ensures
            s@ == self.spec_name(),
    {
        match self {
            LedgerError::DuplicateId => "DuplicateId",
            LedgerError::InvalidQuantity => "InvalidQuantity",
            LedgerError::InvalidPrice => "InvalidPrice",
            LedgerError::InsufficientDeposit => "InsufficientDeposit",
            LedgerError::NotFound => "NotFound",
            LedgerError::Unauthorized => "Unauthorized",
            LedgerError::InvalidPayload => "InvalidPayload",
        }
    }

    pub open spec fn spec_name(&self) -> Seq<char> {
        match self {
            LedgerError::DuplicateId => "DuplicateId"@,
            LedgerError::InvalidQuantity => "InvalidQuantity"@,
            LedgerError::InvalidPrice => "InvalidPrice"@,
            LedgerError::InsufficientDeposit => "InsufficientDeposit"@,
            LedgerError::NotFound => "NotFound"@,
            LedgerError::Unauthorized => "Unauthorized"@,
            LedgerError::InvalidPayload => "InvalidPayload"@,
        }
    }
}

} // verus!
