//! Registers and operands: what an instruction names when it reads or
//! writes.
use vstd::prelude::*;

use crate::identifier::{path_names, Identifier, Name};
use crate::literal::Literal;

verus! {

/// A register of the call frame: a slot by its index, or a place inside the
/// value of a slot, reached by a path of names.
#[derive(Debug, PartialEq, Eq)]
pub enum Register {
    Locator(u64),
    Member(u64, Vec<Identifier>),
}

/// What an instruction reads: a register, or a literal written in place.
#[derive(Debug, PartialEq, Eq)]
pub enum Operand {
    Literal(Literal),
    Register(Register),
}

impl Register {
    /// The index of the slot that the register names or reaches into.
    pub open spec fn locator_spec(&self) -> u64 {
        match self {
            Register::Locator(locator) => *locator,
            Register::Member(locator, _) => *locator,
        }
    }

    /// The path from the slot's value to the place that the register names:
    /// empty for the slot itself.
    pub open spec fn path_spec(&self) -> Seq<Name> {
        match self {
            Register::Locator(_) => Seq::empty(),
            Register::Member(_, path) => path_names(path@),
        }
    }

    /// The index of the slot that the register names or reaches into.
    pub fn locator(&self) -> (locator: u64)
        ensures
            locator == self.locator_spec(),
    {
        match self {
            Register::Locator(locator) => *locator,
            Register::Member(locator, _) => *locator,
        }
    }
}

} // verus!
