//! The ways an operation of the exchange can be refused.

use vstd::prelude::*;

verus! {

/// Why an operation was refused. A refused operation changes nothing and emits nothing.
#[derive(Clone, Copy, Debug, PartialEq, Eq, Structural)]
pub enum ContractError {
    /// The payment does not cover the sale.
    InsufficientFunds {},
    /// The caller may not do this, or the token is already listed.
    Unauthorized {},
    /// No active listing exists for the token.
    NotFound {},
    /// The royalty rate exceeds the whole price, or the creator shares exceed the whole pool.
    InvalidRoyalties {},
}

impl ContractError {
    /// What `message` returns.
    pub open spec fn message_of(self) -> Seq<char> {
        match self {
            ContractError::InsufficientFunds {  } => "Insufficient funds"@,
            ContractError::Unauthorized {  } => "Unauthorized"@,
            ContractError::NotFound {  } => "Not found"@,
            ContractError::InvalidRoyalties {  } => "Invalid royalties"@,
        }
    }

    /// The error in words, as it is shown to the caller.
    pub fn message(&self) -> (text: String)
        ensures
            text@ == self.message_of(),
    {
        match self {
            ContractError::InsufficientFunds {  } => "Insufficient funds".to_owned(),
            ContractError::Unauthorized {  } => "Unauthorized".to_owned(),
            ContractError::NotFound {  } => "Not found".to_owned(),
            ContractError::InvalidRoyalties {  } => "Invalid royalties".to_owned(),
        }
    }
}

} // verus!
