use vstd::prelude::*;

verus! {

/// Every way a piggy-bank call can fail.
///
/// The first three arise while validating the configuration at
/// instantiation. `MissingPayment`, `ExtraDenom`, `WrongDenom` and
/// `WrongAmount` are payment failures. `SupplyExhausted` rejects a mint whose
/// candidate id exceeds the supply cap. `Unauthorized` and `NotFound` are
/// raised here or passed through from the token registry, and `Registry`
/// carries any other registry failure opaquely.
#[derive(Debug, Clone, Copy, PartialEq, Eq, Structural)]
pub enum ContractError {
    /// The deposit asset is not a well-formed native denomination.
    InvalidDenom,
    /// The metadata base URL does not parse as a URL.
    InvalidUrl,
    /// The sale funds recipient is not a valid address.
    InvalidAddress,
    /// No payment was attached, or the attached amount was zero.
    MissingPayment,
    /// More than one denomination was attached.
    ExtraDenom,
    /// A single payment was attached, but in the wrong denomination.
    WrongDenom,
    /// The paid amount differs from the configured mint price.
    WrongAmount,
    /// The candidate token id exceeds the configured maximum supply.
    SupplyExhausted,
    /// The caller is not allowed to perform this operation.
    Unauthorized,
    /// The token does not exist.
    NotFound,
    /// An opaque failure reported by the token registry.
    Registry,
}

/// What the token registry reported for an operation it performed.
///
/// The registry manages ownership and existence; its verdict reaches the
/// handlers as a plain value.
#[derive(Debug, Clone, Copy, PartialEq, Eq, Structural)]
pub enum RegistryError {
    /// The caller does not own the token.
    Unauthorized,
    /// The token does not exist in the registry.
    NotFound,
    /// Any other registry failure.
    Other,
}

/// How a registry failure surfaces to the caller of a handler.
pub open spec fn spec_registry_error(e: RegistryError) -> ContractError {
    match e {
        RegistryError::Unauthorized => ContractError::Unauthorized,
        RegistryError::NotFound => ContractError::NotFound,
        RegistryError::Other => ContractError::Registry,
    }
}

/// Maps a registry failure to the error returned to the caller.
pub fn registry_error(e: RegistryError) -> (r: ContractError)
    ensures
        r == spec_registry_error(e),
{
    match e {
        RegistryError::Unauthorized => ContractError::Unauthorized,
        RegistryError::NotFound => ContractError::NotFound,
        RegistryError::Other => ContractError::Registry,
    }
}

} // verus!
