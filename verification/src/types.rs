//! Declared types: what a program says its values, records and registers
//! look like.
use vstd::prelude::*;

use crate::identifier::{Identifier, Locator, Name, Named};
use crate::literal::LiteralType;
use crate::value::Visibility;

verus! {

/// The declared type of a plaintext: a kind of literal, or a struct of the
/// program, by name.
#[derive(Debug, PartialEq, Eq)]
pub enum PlaintextType {
    Literal(LiteralType),
    Struct(Identifier),
}

/// The declaration of a struct: its name and its members in their order.
#[derive(Debug, PartialEq, Eq)]
pub struct StructType {
    pub name: Identifier,
    pub members: Vec<(Identifier, PlaintextType)>,
}

/// The declared type of a record field: who may see it, and its plaintext
/// type.
#[derive(Debug, PartialEq, Eq)]
pub struct EntryType {
    pub visibility: Visibility,
    pub plaintext_type: PlaintextType,
}

/// The declaration of a record: its name and its fields in their order.
#[derive(Debug, PartialEq, Eq)]
pub struct RecordType {
    pub name: Identifier,
    pub entries: Vec<(Identifier, EntryType)>,
}

/// The declared type of a value that enters or leaves a function.
#[derive(Debug, PartialEq, Eq)]
pub enum ValueType {
    Constant(PlaintextType),
    Public(PlaintextType),
    Private(PlaintextType),
    Record(Identifier),
    ExternalRecord(Locator),
}

/// The declared type of a register.
#[derive(Debug, PartialEq, Eq)]
pub enum RegisterType {
    /// A plaintext of the given type.
    Plaintext(PlaintextType),
    /// A record of the program itself, by name.
    Record(Identifier),
    /// A record that another program declares, by locator.
    ExternalRecord(Locator),
    /// What a call into another program hands back under the given locator.
    /// The register takes any record, as long as the locator names a record
    /// of an imported program: its layout is the other program's business.
    ExternalOutput(Locator),
}

/// The typed register signature of a function or closure: the types of its
/// input registers, which come first, and of the registers that its
/// instructions assign.
#[derive(Debug, PartialEq, Eq)]
pub struct RegisterTypes {
    pub inputs: Vec<RegisterType>,
    pub destinations: Vec<RegisterType>,
}

/// The typed register signature of a finalize block.
#[derive(Debug, PartialEq, Eq)]
pub struct FinalizeTypes {
    pub inputs: Vec<PlaintextType>,
    pub destinations: Vec<PlaintextType>,
}

impl Named for StructType {
    open spec fn name(&self) -> Name {
        self.name@
    }

    fn identifier(&self) -> (id: &Identifier) {
        &self.name
    }
}

impl Named for RecordType {
    open spec fn name(&self) -> Name {
        self.name@
    }

    fn identifier(&self) -> (id: &Identifier) {
        &self.name
    }
}

impl RegisterTypes {
    /// The declared type of the register `locator`, if it has one.
    pub open spec fn type_of(&self, locator: u64) -> Option<RegisterType> {
        if locator < self.inputs@.len() {
            Some(self.inputs@[locator as int])
        } else if locator - self.inputs@.len() < self.destinations@.len() {
            Some(self.destinations@[locator - self.inputs@.len()])
        } else {
            None
        }
    }

    /// The declared type of the register `locator`.
    pub fn get_type(&self, locator: u64) -> (declared: Option<&RegisterType>)
        ensures
            match declared {
                Some(register_type) => self.type_of(locator) == Some(*register_type),
                None => self.type_of(locator) is None,
            },
    {
        let inputs: u64 = self.inputs.len() as u64;
        if locator < inputs {
            Some(&self.inputs[locator as usize])
        } else if locator - inputs < self.destinations.len() as u64 {
            Some(&self.destinations[(locator - inputs) as usize])
        } else {
            None
        }
    }
}

} // verus!
