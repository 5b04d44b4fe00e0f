use vstd::prelude::*;

verus! {

/// Failures of the registry operations.
#[derive(Copy, Clone, Debug, PartialEq, Eq, Structural)]
pub enum Error {
    NotInitialized,
    AlreadyInitialized,
    Unauthorized,
    InvalidAmount,
    InvalidDueDate,
    InvalidStatus,
    InvalidDiscount,
    InvoiceNotFound,
    CannotCancel,
    CannotRepay,
    NotListed,
}

impl Error {
    /// The stable numeric code of the error, as published on the ledger.
    pub open spec fn spec_code(self) -> u32 {
        match self {
            Error::NotInitialized => 1,
            Error::AlreadyInitialized => 2,
            Error::Unauthorized => 3,
            Error::InvalidAmount => 4,
            Error::InvalidDueDate => 5,
            Error::InvalidStatus => 6,
            Error::InvalidDiscount => 7,
            Error::InvoiceNotFound => 8,
            Error::CannotCancel => 9,
            Error::CannotRepay => 10,
            Error::NotListed => 11,
        }
    }

    pub fn code(&self) -> (r: u32)
        ensures
            r == self.spec_code(),
    {
        match self {
            Error::NotInitialized => 1,
            Error::AlreadyInitialized => 2,
            Error::Unauthorized => 3,
            Error::InvalidAmount => 4,
            Error::InvalidDueDate => 5,
            Error::InvalidStatus => 6,
            Error::InvalidDiscount => 7,
            Error::InvoiceNotFound => 8,
            Error::CannotCancel => 9,
            Error::CannotRepay => 10,
            Error::NotListed => 11,
        }
    }
}

} // verus!
