//! The error taxonomy shared by every operation of the library.

use vstd::prelude::*;

verus! {

/// Why an operation was refused. Every operation checks its preconditions
/// before mutating anything, so an `Err` always means "nothing changed".
#[derive(Clone, Copy, Debug, PartialEq, Eq, Structural)]
pub enum ErrorKind {
    /// The caller is not the record's owner, or a named seller does not
    /// match the record's current owner.
    Unauthorized,
    /// A non-positive amount or price, or a lock duration whose unlock time
    /// would overflow the time representation.
    InvalidInput,
    /// The operation does not fit the record's current lifecycle state.
    StateConflict,
    /// The value-transfer primitive or the authority derivation rejected
    /// the request.
    ExternalFailure,
    /// Amount arithmetic would overflow.
    ArithmeticOverflow,
    /// No record is stored under the given identity.
    RecordNotFound,
}

} // verus!
