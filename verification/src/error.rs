//! The ways an operation on the flag can fail.

use vstd::prelude::*;

verus! {

/// Why an operation failed. Every failure ends the call; none is retried.
#[derive(Clone, Copy, Debug, PartialEq, Eq, Structural)]
pub enum ContractError {
    /// The flag could not be encoded.
    Serialization,
    /// The stored bytes do not decode to a boolean.
    Deserialization,
    /// The flag read back after writing it decodes to `false`.
    Corruption,
    /// Nothing was found under the key right after writing it.
    MissingAfterWrite,
    /// The key is still present right after removing it.
    NotRemoved,
    /// A read found the key absent.
    KeyRemoved,
}

impl ContractError {
    /// The text handed to the caller for this failure.
    pub open spec fn text(self) -> Seq<char> {
        match self {
            ContractError::Serialization => "serialization error"@,
            ContractError::Deserialization => "deserialization error"@,
            ContractError::Corruption => "Corrupt retrieval from storage"@,
            ContractError::MissingAfterWrite => "Could not retrieve from storage"@,
            ContractError::NotRemoved => "Could not remove from storage"@,
            ContractError::KeyRemoved => "This key has been removed"@,
        }
    }

    /// The failure as the message that is surfaced to the caller.
    pub fn message(&self) -> (s: String)
        ensures
            s@ == self.text(),
    {
        match self {
            ContractError::Serialization => "serialization error".to_owned(),
            ContractError::Deserialization => "deserialization error".to_owned(),
            ContractError::Corruption => "Corrupt retrieval from storage".to_owned(),
            ContractError::MissingAfterWrite => "Could not retrieve from storage".to_owned(),
            ContractError::NotRemoved => "Could not remove from storage".to_owned(),
            ContractError::KeyRemoved => "This key has been removed".to_owned(),
        }
    }
}

} // verus!
