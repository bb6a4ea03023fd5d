//! The ways an operation of the factory can be refused.

use vstd::prelude::*;

verus! {

/// Why an operation was refused. Every refusal leaves the stored record as it was.
#[derive(Clone, Copy, Debug, PartialEq, Eq, Structural)]
pub enum ContractError {
    /// No configuration record has been stored yet.
    NotInitialized,
    /// The unit price given at initialization was zero.
    InvalidUnitPrice,
    /// The supply cap given at initialization was zero.
    InvalidMaxTokens,
    /// The payment did not arrive through the accepted payment contract.
    UnauthorizedPaymentMedium,
    /// No registry has been linked yet, so nothing can be issued.
    RegistryNotLinked,
    /// Every token up to the supply cap has been issued.
    SupplyExhausted,
    /// The amount paid differs from the unit price.
    WrongPaymentAmount,
    /// A completion notice carried a token other than the reserved one.
    UnexpectedCorrelationToken,
    /// A registry is already linked; it can be linked only once.
    AlreadyLinked,
    /// The completion notice did not carry a readable registry address.
    DecodeFailure,
    /// An outgoing message could not be encoded.
    EncodeFailure,
    /// A migration was asked for; the factory defines none.
    UnsupportedMigration,
}

} // verus!
