//! The ways in which an operation on the registry fails.

use vstd::prelude::*;

verus! {

/// Why an operation was refused. A refused operation changes nothing.
#[derive(Clone, Copy, Debug, PartialEq, Eq, Structural)]
pub enum RegistryError {
    /// A record that the operation needs is not there.
    RecordNotFound,
    /// The slot of a record that must be new is already taken.
    AlreadyExists,
    /// A string is longer than the field that would hold it.
    CapacityExceeded,
    /// The caller has not signed the request.
    Unauthorized,
    /// No address can be derived for the slot of the record.
    SlotUnavailable,
    /// The host did not tell the ledger time.
    ClockUnavailable,
}

} // verus!
