use vstd::prelude::*;

verus! {

/// Why an operation on a ledger or on the factory was refused.
///
/// A refused operation leaves the state it was called on unchanged.
#[derive(Debug, Clone, Copy, PartialEq, Eq, Structural)]
pub enum FlatsError {
    /// A malformed input, such as a date whose year is not positive.
    InvalidInput,
    /// The date or unit is already reserved.
    Unavailable,
    /// The unit has no occupant.
    NotOccupied,
    /// The attached amount differs from the configured price.
    PriceMismatch,
    /// The caller is not the party allowed to make this transition.
    Forbidden,
    /// No unit has the given id.
    NotFound,
    /// A property of that name is already registered.
    NameTaken,
    /// The attached deposit is not exactly the provisioning fee.
    InsufficientDeposit,
    /// The property name cannot name a sub-account.
    InvalidName,
    /// The property data breaks an invariant of a property.
    InvalidProperty,
}

} // verus!
