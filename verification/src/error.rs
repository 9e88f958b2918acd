use vstd::prelude::*;

verus! {

/// Every way an operation of the registry can fail. A failed operation
/// leaves the state it was called on unchanged.
#[derive(Clone, Copy, Debug, PartialEq, Eq, Structural)]
pub enum RegistryError {
    /// A mint index is out of range or has no exchange rate configured.
    UnknownMint,
    /// A withdrawal asks for more than is vested.
    InsufficientUnvested,
    /// Clawback on an entry that does not allow it.
    NotClawbackEligible,
    /// A withdrawal at the very timestamp of the latest deposit.
    SameTimestampAsDeposit,
    /// An operation on an unused slot, or on a slot in the wrong state.
    InvalidState,
    /// A lockup change that would lengthen the remaining lock.
    InvalidLockupChange,
    /// A result or an intermediate value does not fit its integer type.
    ArithmeticOverflow,
    /// A stored record is truncated or carries an unknown discriminator.
    MalformedRecord,
}

} // verus!
