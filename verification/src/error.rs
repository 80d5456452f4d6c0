//! The ways in which an operation of the register machine can fail.
use vstd::prelude::*;

verus! {

/// Why an operation was refused. Every failure is final for the call that
/// reports it, and no failure leaves a partial change behind.
#[derive(Clone, Copy, Debug, PartialEq, Eq, Structural)]
pub enum StackError {
    /// A name, register, program, function or signature could not be resolved.
    NotFound,
    /// A value does not have the shape that its declared type demands.
    TypeMismatch,
    /// A store into a register that may not be assigned (again).
    IllegalAssignment,
    /// A read of a register that holds nothing yet.
    IllegalAccess,
    /// A narrowing accessor met a value of another variant.
    NarrowingFailure,
}

} // verus!
