//! What a call stack knows of its program and of the programs it imports,
//! and how it judges values against declared types.
use vstd::prelude::*;

use crate::error::StackError;
use crate::identifier::{Identifier, Locator, Name, ProgramID, ProgramName};
use crate::literal::Literal;
use crate::matcher::{
    external_record_matches, local_record_matches, plaintext_matches, register_type_matches,
    value_type_matches, verdict,
};
use crate::program::{Function, Program};
use crate::types::{
    FinalizeTypes, PlaintextType, RecordType, RegisterType, RegisterTypes, ValueType,
};
use crate::value::{Plaintext, Record, Value};

verus! {

/// The static facts of a program in execution: its declarations, the
/// programs it imports, and what follows from them. Nothing here changes
/// once the stack is built, and every answer depends on the question alone.
pub trait StackProgram: Sized {
    /// The program of this stack.
    spec fn program_spec(&self) -> Program;

    /// The stack of the imported program `program_id`, if it was imported.
    spec fn external_spec(&self, program_id: ProgramName) -> Option<Self>;

    /// The number of call instructions that running the function
    /// `function_name` reaches.
    spec fn number_of_calls_spec(&self, function_name: Name) -> nat;

    /// Returns the program.
    fn program(&self) -> (program: &Program)
        ensures
            *program == self.program_spec(),
    ;

    /// Returns the program ID.
    fn program_id(&self) -> (id: &ProgramID)
        ensures
            *id == self.program_spec().id,
    ;

    /// Returns `true` if the program `locator` names was imported and
    /// declares the record that `locator` names.
    fn contains_external_record(&self, locator: &Locator) -> (contained: bool)
        ensures
            contained == (self.external_spec(locator@.0) matches Some(external)
                && external.program_spec().record_of(locator@.1) is Some),
    ;

    /// Returns the stack of the imported program `program_id`. Fails with
    /// `NotFound` exactly when no such program was imported.
    fn get_external_stack(&self, program_id: &ProgramID) -> (found: Result<&Self, StackError>)
        ensures
            match found {
                Ok(external) => self.external_spec(program_id@) == Some(*external),
                Err(error) => error == StackError::NotFound && self.external_spec(program_id@)
                    is None,
            },
    ;

    /// Returns the imported program `program_id`. Fails with `NotFound`
    /// exactly when no such program was imported.
    fn get_external_program(&self, program_id: &ProgramID) -> (found: Result<
        &Program,
        StackError,
    >)
        ensures
            match found {
                Ok(program) => self.external_spec(program_id@) matches Some(external)
                    && external.program_spec() == *program,
                Err(error) => error == StackError::NotFound && self.external_spec(program_id@)
                    is None,
            },
    ;

    /// Returns the record that `locator` names in an imported program. Fails
    /// with `NotFound` exactly when the program was not imported or declares
    /// no such record.
    fn get_external_record(&self, locator: &Locator) -> (found: Result<&RecordType, StackError>)
        ensures
            match found {
                Ok(declared) => self.external_spec(locator@.0) matches Some(external)
                    && external.program_spec().record_of(locator@.1) == Some(*declared),
                Err(error) => error == StackError::NotFound && !(self.external_spec(
                    locator@.0,
                ) matches Some(external) && external.program_spec().record_of(locator@.1)
                    is Some),
            },
    ;

    /// Returns the function with the given name. Fails with `NotFound`
    /// exactly when the program declares no such function.
    fn get_function(&self, function_name: &Identifier) -> (found: Result<&Function, StackError>)
        ensures
            match found {
                Ok(function) => self.program_spec().function_of(function_name@) == Some(
                    *function,
                ),
                Err(error) => error == StackError::NotFound && self.program_spec().function_of(
                    function_name@,
                ) is None,
            },
    ;

    /// Returns the number of call instructions that running the function
    /// reaches. Fails with `NotFound` exactly when the program declares no
    /// such function.
    fn get_number_of_calls(&self, function_name: &Identifier) -> (found: Result<
        usize,
        StackError,
    >)
        ensures
            match found {
                Ok(calls) => self.program_spec().function_of(function_name@) is Some && calls
                    == self.number_of_calls_spec(function_name@),
                Err(error) => error == StackError::NotFound && self.program_spec().function_of(
                    function_name@,
                ) is None,
            },
    ;

    /// Returns the register types of the closure or function with the given
    /// name. Fails with `NotFound` exactly when the program declares neither.
    fn get_register_types(&self, name: &Identifier) -> (found: Result<
        &RegisterTypes,
        StackError,
    >)
        ensures
            match found {
                Ok(declared) => self.program_spec().register_types_of(name@) == Some(*declared),
                Err(error) => error == StackError::NotFound
                    && self.program_spec().register_types_of(name@) is None,
            },
    ;

    /// Returns the finalize types of the function with the given name. Fails
    /// with `NotFound` exactly when the program declares no such function or
    /// the function has no finalize block.
    fn get_finalize_types(&self, name: &Identifier) -> (found: Result<
        &FinalizeTypes,
        StackError,
    >)
        ensures
            match found {
                Ok(declared) => self.program_spec().finalize_types_of(name@) == Some(*declared),
                Err(error) => error == StackError::NotFound
                    && self.program_spec().finalize_types_of(name@) is None,
            },
    ;
}

/// The judgement of plain values against declared types. Each check
/// succeeds exactly when the value has the declared layout, fails with
/// `TypeMismatch` otherwise, and changes nothing.
pub trait StackMatches: StackProgram {
    /// Checks that the given value matches the layout of the value type.
    fn matches_value_type(&self, value: &Value<Literal>, value_type: &ValueType) -> (checked:
        Result<(), StackError>)
        ensures
            checked == verdict(value_type_matches(*self, value@, *value_type)),
    ;

    /// Checks that the given stack value matches the layout of the register
    /// type.
    fn matches_register_type(
        &self,
        stack_value: &Value<Literal>,
        register_type: &RegisterType,
    ) -> (checked: Result<(), StackError>)
        ensures
            checked == verdict(register_type_matches(*self, stack_value@, *register_type)),
    ;

    /// Checks that the given record matches the layout of the record that
    /// `locator` names in an imported program.
    fn matches_external_record(&self, record: &Record<Literal>, locator: &Locator) -> (checked:
        Result<(), StackError>)
        ensures
            checked == verdict(external_record_matches(*self, record@, locator@)),
    ;

    /// Checks that the given record matches the layout of the program's own
    /// record of the given name.
    fn matches_record(&self, record: &Record<Literal>, record_name: &Identifier) -> (checked:
        Result<(), StackError>)
        ensures
            checked == verdict(local_record_matches(*self, record@, record_name@)),
    ;

    /// Checks that the given plaintext matches the layout of the plaintext
    /// type.
    fn matches_plaintext(&self, plaintext: &Plaintext<Literal>, plaintext_type: &PlaintextType) -> (checked:
        Result<(), StackError>)
        ensures
            checked == verdict(
                plaintext_matches(self.program_spec(), plaintext@, *plaintext_type),
            ),
    ;
}

} // verus!
