//! A program: its declarations, and how they are found by name.
use vstd::prelude::*;

use crate::error::StackError;
use crate::identifier::{
    find_named, first_index, names_of, Identifier, Locator, Name, Named, ProgramID,
};
use crate::types::{FinalizeTypes, RecordType, RegisterTypes, StructType};

verus! {

/// Whom a call instruction calls: a function or closure of the program
/// itself, or a function of another program.
#[derive(Debug, PartialEq, Eq)]
pub enum CallOperator {
    Resource(Identifier),
    Locator(Locator),
}

/// A closure: its name, its typed register signature, and the targets of its
/// call instructions in program order.
#[derive(Debug, PartialEq, Eq)]
pub struct Closure {
    pub name: Identifier,
    pub register_types: RegisterTypes,
    pub calls: Vec<CallOperator>,
}

/// A function: its name, its typed register signature, the targets of its
/// call instructions in program order, and the signature of its finalize
/// block where it has one.
#[derive(Debug, PartialEq, Eq)]
pub struct Function {
    pub name: Identifier,
    pub register_types: RegisterTypes,
    pub calls: Vec<CallOperator>,
    pub finalize: Option<FinalizeTypes>,
}

/// A program: its identifier and its declarations. Where two declarations of
/// one sort share a name, the first one is the one that the name finds.
#[derive(Debug, PartialEq, Eq)]
pub struct Program {
    pub id: ProgramID,
    pub structs: Vec<StructType>,
    pub records: Vec<RecordType>,
    pub closures: Vec<Closure>,
    pub functions: Vec<Function>,
}

impl Named for Closure {
    open spec fn name(&self) -> Name {
        self.name@
    }

    fn identifier(&self) -> (id: &Identifier) {
        &self.name
    }
}

impl Named for Function {
    open spec fn name(&self) -> Name {
        self.name@
    }

    fn identifier(&self) -> (id: &Identifier) {
        &self.name
    }
}

impl Program {
    /// The struct that `name` finds.
    pub open spec fn struct_of(&self, name: Name) -> Option<StructType> {
        match first_index(names_of(self.structs@), name) {
            Some(i) => Some(self.structs@[i]),
            None => None,
        }
    }

    /// The record that `name` finds.
    pub open spec fn record_of(&self, name: Name) -> Option<RecordType> {
        match first_index(names_of(self.records@), name) {
            Some(i) => Some(self.records@[i]),
            None => None,
        }
    }

    /// The closure that `name` finds.
    pub open spec fn closure_of(&self, name: Name) -> Option<Closure> {
        match first_index(names_of(self.closures@), name) {
            Some(i) => Some(self.closures@[i]),
            None => None,
        }
    }

    /// The function that `name` finds.
    pub open spec fn function_of(&self, name: Name) -> Option<Function> {
        match first_index(names_of(self.functions@), name) {
            Some(i) => Some(self.functions@[i]),
            None => None,
        }
    }

    /// The register signature that `name` finds: that of the closure of this
    /// name, else that of the function of this name.
    pub open spec fn register_types_of(&self, name: Name) -> Option<RegisterTypes> {
        match self.closure_of(name) {
            Some(closure) => Some(closure.register_types),
            None => match self.function_of(name) {
                Some(function) => Some(function.register_types),
                None => None,
            },
        }
    }

    /// The finalize signature that `name` finds: that of the function of this
    /// name, where it has a finalize block.
    pub open spec fn finalize_types_of(&self, name: Name) -> Option<FinalizeTypes> {
        match self.function_of(name) {
            Some(function) => function.finalize,
            None => None,
        }
    }

    /// The struct declared under `name`.
    pub fn get_struct(&self, name: &Identifier) -> (found: Result<&StructType, StackError>)
        ensures
            match found {
                Ok(declared) => self.struct_of(name@) == Some(*declared),
                Err(error) => error == StackError::NotFound && self.struct_of(name@) is None,
            },
    {
        match find_named(&self.structs, name) {
            Some(i) => Ok(&self.structs[i]),
            None => Err(StackError::NotFound),
        }
    }

    /// The record declared under `name`.
    pub fn get_record(&self, name: &Identifier) -> (found: Result<&RecordType, StackError>)
        ensures
            match found {
                Ok(declared) => self.record_of(name@) == Some(*declared),
                Err(error) => error == StackError::NotFound && self.record_of(name@) is None,
            },
    {
        match find_named(&self.records, name) {
            Some(i) => Ok(&self.records[i]),
            None => Err(StackError::NotFound),
        }
    }

    /// The function declared under `name`.
    pub fn get_function(&self, name: &Identifier) -> (found: Result<&Function, StackError>)
        ensures
            match found {
                Ok(declared) => self.function_of(name@) == Some(*declared),
                Err(error) => error == StackError::NotFound && self.function_of(name@) is None,
            },
    {
        match find_named(&self.functions, name) {
            Some(i) => Ok(&self.functions[i]),
            None => Err(StackError::NotFound),
        }
    }

    /// The register signature of the closure or function declared under
    /// `name`.
    pub fn get_register_types(&self, name: &Identifier) -> (found: Result<
        &RegisterTypes,
        StackError,
    >)
        ensures
            match found {
                Ok(declared) => self.register_types_of(name@) == Some(*declared),
                Err(error) => error == StackError::NotFound && self.register_types_of(name@)
                    is None,
            },
    {
        match find_named(&self.closures, name) {
            Some(i) => Ok(&self.closures[i].register_types),
            None => match find_named(&self.functions, name) {
                Some(i) => Ok(&self.functions[i].register_types),
                None => Err(StackError::NotFound),
            },
        }
    }

    /// The finalize signature of the function declared under `name`.
    pub fn get_finalize_types(&self, name: &Identifier) -> (found: Result<
        &FinalizeTypes,
        StackError,
    >)
        ensures
            match found {
                Ok(declared) => self.finalize_types_of(name@) == Some(*declared),
                Err(error) => error == StackError::NotFound && self.finalize_types_of(name@)
                    is None,
            },
    {
        match find_named(&self.functions, name) {
            Some(i) => match &self.functions[i].finalize {
                Some(finalize) => Ok(finalize),
                None => Err(StackError::NotFound),
            },
            None => Err(StackError::NotFound),
        }
    }
}

} // verus!
