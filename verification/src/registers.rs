//! The registers of one call frame: the call stack it runs under, the
//! identity of the caller, and the plain and the circuit register file,
//! which the instructions drive in lockstep.
use vstd::prelude::*;

use crate::context::{StackMatches, StackProgram};
use crate::error::StackError;
use crate::frame::{
    load_outcome, loaded, open_outcome, store_effect, store_outcome, value_models, FrameModel,
    RegisterFile,
};
use crate::identifier::{Identifier, Locator, LocatorName, Name};
use crate::literal::{Address, CircuitAddress, CircuitField, CircuitLiteral, Field, Literal};
use crate::operand::{Operand, Register};
use crate::value::{Plaintext, PlaintextModel, Value, ValueModel};

verus! {

/// The chain of calls that led to the frame, outermost first: each link is
/// the function that was called, by its locator.
#[derive(Debug, PartialEq, Eq)]
pub struct CallStack {
    pub chain: Vec<Locator>,
}

impl View for CallStack {
    type V = Seq<LocatorName>;

    open spec fn view(&self) -> Seq<LocatorName> {
        Seq::new(self.chain@.len(), |i: int| self.chain@[i]@)
    }
}

impl Clone for CallStack {
    fn clone(&self) -> (copy: Self)
        ensures
            copy@ == self@,
    {
        let mut chain: Vec<Locator> = Vec::new();
        let mut i: usize = 0;
        while i < self.chain.len()
            invariant
                i <= self.chain.len(),
                chain.len() == i,
                forall|j: int| 0 <= j < i ==> chain@[j]@ == self.chain@[j]@,
            decreases self.chain.len() - i,
        {
            chain.push(self.chain[i].clone());
            i = i + 1;
        }
        let copy = CallStack { chain };
        copy
    }
}

/// What reading an identity register comes to: its value where it was set,
/// `IllegalAccess` where it was not.
pub open spec fn bound<T>(identity: Option<T>) -> Result<T, StackError> {
    match identity {
        Some(value) => Ok(value),
        None => Err(StackError::IllegalAccess),
    }
}

/// What narrowing a loaded value to a literal comes to: the literal where
/// the value is a plaintext that is a literal, `NarrowingFailure` for any
/// other value, and the load's own error where the load failed.
pub open spec fn narrow_literal<L>(result: Result<ValueModel<L>, StackError>) -> Result<
    L,
    StackError,
> {
    match result {
        Ok(ValueModel::Plaintext(PlaintextModel::Literal(literal))) => Ok(literal),
        Ok(ValueModel::Plaintext(PlaintextModel::Struct(_))) => Err(StackError::NarrowingFailure),
        Ok(ValueModel::Record(_)) => Err(StackError::NarrowingFailure),
        Err(error) => Err(error),
    }
}

/// What narrowing a loaded value to a plaintext comes to: the plaintext
/// where the value is one, `NarrowingFailure` for a record, and the load's
/// own error where the load failed.
pub open spec fn narrow_plaintext<L>(result: Result<ValueModel<L>, StackError>) -> Result<
    PlaintextModel<L>,
    StackError,
> {
    match result {
        Ok(ValueModel::Plaintext(plaintext)) => Ok(plaintext),
        Ok(ValueModel::Record(_)) => Err(StackError::NarrowingFailure),
        Err(error) => Err(error),
    }
}

/// The result of an operation that hands out a plaintext, with the
/// plaintext taken by its mathematical value.
pub open spec fn loaded_plaintext<L>(result: Result<Plaintext<L>, StackError>) -> Result<
    PlaintextModel<L>,
    StackError,
> {
    match result {
        Ok(plaintext) => Ok(plaintext@),
        Err(error) => Err(error),
    }
}

pub trait RegistersCall {
    /// The call stack that the frame runs under.
    spec fn call_stack_spec(&self) -> CallStack;

    /// Returns the current call stack.
    fn call_stack(&self) -> (call_stack: CallStack)
        ensures
            call_stack@ == self.call_stack_spec()@,
    ;
}

pub trait RegistersCaller {
    /// The transition caller, once it has been set.
    spec fn caller_spec(&self) -> Option<Address>;

    /// The transition view key, once it has been set.
    spec fn tvk_spec(&self) -> Option<Field>;

    /// Returns the transition caller. Fails with `IllegalAccess` exactly
    /// when it has not been set.
    fn caller(&self) -> (caller: Result<Address, StackError>)
        ensures
            caller == bound(self.caller_spec()),
    ;

    /// Sets the transition caller, whatever it was before.
    fn set_caller(&mut self, caller: Address)
        ensures
            final(self).caller_spec() == Some(caller),
            final(self).tvk_spec() == old(self).tvk_spec(),
    ;

    /// Returns the transition view key. Fails with `IllegalAccess` exactly
    /// when it has not been set.
    fn tvk(&self) -> (tvk: Result<Field, StackError>)
        ensures
            tvk == bound(self.tvk_spec()),
    ;

    /// Sets the transition view key, whatever it was before.
    fn set_tvk(&mut self, tvk: Field)
        ensures
            final(self).tvk_spec() == Some(tvk),
            final(self).caller_spec() == old(self).caller_spec(),
    ;
}

pub trait RegistersCallerCircuit {
    /// The transition caller as a circuit, once it has been set.
    spec fn caller_circuit_spec(&self) -> Option<CircuitAddress>;

    /// The transition view key as a circuit, once it has been set.
    spec fn tvk_circuit_spec(&self) -> Option<CircuitField>;

    /// Returns the transition caller, as a circuit. Fails with
    /// `IllegalAccess` exactly when it has not been set.
    fn caller_circuit(&self) -> (caller_circuit: Result<CircuitAddress, StackError>)
        ensures
            caller_circuit == bound(self.caller_circuit_spec()),
    ;

    /// Sets the transition caller, as a circuit, whatever it was before.
    fn set_caller_circuit(&mut self, caller_circuit: CircuitAddress)
        ensures
            final(self).caller_circuit_spec() == Some(caller_circuit),
            final(self).tvk_circuit_spec() == old(self).tvk_circuit_spec(),
    ;

    /// Returns the transition view key, as a circuit. Fails with
    /// `IllegalAccess` exactly when it has not been set.
    fn tvk_circuit(&self) -> (tvk_circuit: Result<CircuitField, StackError>)
        ensures
            tvk_circuit == bound(self.tvk_circuit_spec()),
    ;

    /// Sets the transition view key, as a circuit, whatever it was before.
    fn set_tvk_circuit(&mut self, tvk_circuit: CircuitField)
        ensures
            final(self).tvk_circuit_spec() == Some(tvk_circuit),
            final(self).caller_circuit_spec() == old(self).caller_circuit_spec(),
    ;
}

pub trait RegistersLoad {
    /// The plain register file of the frame.
    spec fn frame(&self) -> FrameModel<Literal>;

    /// Loads the value of a given operand.
    ///
    /// # Errors
    /// Fails with `IllegalAccess` if the register has not been assigned, and
    /// with `NotFound` if the register names a member that is not there.
    fn load<S: StackMatches + StackProgram>(&self, stack: &S, operand: &Operand) -> (result:
        Result<Value<Literal>, StackError>)
        ensures
            loaded(result) == load_outcome(self.frame(), *operand),
    ;

    /// Loads the literal of a given operand.
    ///
    /// # Errors
    /// Fails as `load` does, and with `NarrowingFailure` if the operand does
    /// not load as a literal.
    #[inline]
    fn load_literal<S: StackMatches + StackProgram>(&self, stack: &S, operand: &Operand) -> (result:
        Result<Literal, StackError>)
        ensures
            result == narrow_literal(load_outcome(self.frame(), *operand)),
    {
        match self.load(stack, operand) {
            Ok(Value::Plaintext(Plaintext::Literal(literal))) => Ok(literal),
            Ok(Value::Plaintext(Plaintext::Struct(_))) => Err(StackError::NarrowingFailure),
            Ok(Value::Record(_)) => Err(StackError::NarrowingFailure),
            Err(error) => Err(error),
        }
    }

    /// Loads the plaintext of a given operand.
    ///
    /// # Errors
    /// Fails as `load` does, and with `NarrowingFailure` if the operand does
    /// not load as a plaintext.
    #[inline]
    fn load_plaintext<S: StackMatches + StackProgram>(&self, stack: &S, operand: &Operand) -> (result:
        Result<Plaintext<Literal>, StackError>)
        ensures
            loaded_plaintext(result) == narrow_plaintext(load_outcome(self.frame(), *operand)),
    {
        match self.load(stack, operand) {
            Ok(Value::Plaintext(plaintext)) => Ok(plaintext),
            Ok(Value::Record(_)) => Err(StackError::NarrowingFailure),
            Err(error) => Err(error),
        }
    }
}

pub trait RegistersLoadCircuit {
    /// The circuit register file of the frame.
    spec fn circuit_frame(&self) -> FrameModel<CircuitLiteral>;

    /// Loads the value of a given operand.
    ///
    /// # Errors
    /// Fails with `IllegalAccess` if the register has not been assigned, and
    /// with `NotFound` if the register names a member that is not there.
    fn load_circuit<S: StackMatches + StackProgram>(&self, stack: &S, operand: &Operand) -> (result:
        Result<Value<CircuitLiteral>, StackError>)
        ensures
            loaded(result) == load_outcome(self.circuit_frame(), *operand),
    ;

    /// Loads the literal of a given operand.
    ///
    /// # Errors
    /// Fails as `load_circuit` does, and with `NarrowingFailure` if the
    /// operand does not load as a literal.
    #[inline]
    fn load_literal_circuit<S: StackMatches + StackProgram>(
        &self,
        stack: &S,
        operand: &Operand,
    ) -> (result: Result<CircuitLiteral, StackError>)
        ensures
            result == narrow_literal(load_outcome(self.circuit_frame(), *operand)),
    {
        match self.load_circuit(stack, operand) {
            Ok(Value::Plaintext(Plaintext::Literal(literal))) => Ok(literal),
            Ok(Value::Plaintext(Plaintext::Struct(_))) => Err(StackError::NarrowingFailure),
            Ok(Value::Record(_)) => Err(StackError::NarrowingFailure),
            Err(error) => Err(error),
        }
    }

    /// Loads the plaintext of a given operand.
    ///
    /// # Errors
    /// Fails as `load_circuit` does, and with `NarrowingFailure` if the
    /// operand does not load as a plaintext.
    #[inline]
    fn load_plaintext_circuit<S: StackMatches + StackProgram>(
        &self,
        stack: &S,
        operand: &Operand,
    ) -> (result: Result<Plaintext<CircuitLiteral>, StackError>)
        ensures
            loaded_plaintext(result) == narrow_plaintext(
                load_outcome(self.circuit_frame(), *operand),
            ),
    {
        match self.load_circuit(stack, operand) {
            Ok(Value::Plaintext(plaintext)) => Ok(plaintext),
            Ok(Value::Record(_)) => Err(StackError::NarrowingFailure),
            Err(error) => Err(error),
        }
    }
}

pub trait RegistersStore: RegistersLoad {
    /// Assigns the given value to the given register, assuming the register
    /// is not already assigned.
    ///
    /// # Errors
    /// Fails with `IllegalAssignment` if the given register is a register
    /// member, an input register, or already assigned; with `NotFound` if
    /// the register has no declared type; with `TypeMismatch` if the value
    /// does not have the layout of the declared type. A store that fails
    /// changes nothing.
    fn store<S: StackMatches + StackProgram>(
        &mut self,
        stack: &S,
        register: &Register,
        stack_value: Value<Literal>,
    ) -> (stored: Result<(), StackError>)
        ensures
            stored == store_outcome(old(self).frame(), *stack, *register, stack_value@),
            final(self).frame() == store_effect(old(self).frame(), *stack, *register, stack_value@),
    ;

    /// Assigns the given literal to the given register, assuming the
    /// register is not already assigned.
    ///
    /// # Errors
    /// Fails as `store` does on the literal as a plaintext value.
    #[inline]
    fn store_literal<S: StackMatches + StackProgram>(
        &mut self,
        stack: &S,
        register: &Register,
        literal: Literal,
    ) -> (stored: Result<(), StackError>)
        ensures
            stored == store_outcome(
                old(self).frame(),
                *stack,
                *register,
                ValueModel::Plaintext(PlaintextModel::Literal(literal)),
            ),
            final(self).frame() == store_effect(
                old(self).frame(),
                *stack,
                *register,
                ValueModel::Plaintext(PlaintextModel::Literal(literal)),
            ),
    {
        self.store(stack, register, Value::Plaintext(Plaintext::Literal(literal)))
    }
}

pub trait RegistersStoreCircuit: RegistersLoadCircuit {
    /// Assigns the given value to the given register, assuming the register
    /// is not already assigned.
    ///
    /// # Errors
    /// Fails with `IllegalAssignment` if the given register is a register
    /// member, an input register, or already assigned; with `NotFound` if
    /// the register has no declared type; with `TypeMismatch` if the value
    /// does not have the layout of the declared type. A store that fails
    /// changes nothing.
    fn store_circuit<S: StackMatches + StackProgram>(
        &mut self,
        stack: &S,
        register: &Register,
        stack_value: Value<CircuitLiteral>,
    ) -> (stored: Result<(), StackError>)
        ensures
            stored == store_outcome(old(self).circuit_frame(), *stack, *register, stack_value@),
            final(self).circuit_frame() == store_effect(
                old(self).circuit_frame(),
                *stack,
                *register,
                stack_value@,
            ),
    ;

    /// Assigns the given literal to the given register, assuming the
    /// register is not already assigned.
    ///
    /// # Errors
    /// Fails as `store_circuit` does on the literal as a plaintext value.
    #[inline]
    fn store_literal_circuit<S: StackMatches + StackProgram>(
        &mut self,
        stack: &S,
        register: &Register,
        literal: CircuitLiteral,
    ) -> (stored: Result<(), StackError>)
        ensures
            stored == store_outcome(
                old(self).circuit_frame(),
                *stack,
                *register,
                ValueModel::Plaintext(PlaintextModel::Literal(literal)),
            ),
            final(self).circuit_frame() == store_effect(
                old(self).circuit_frame(),
                *stack,
                *register,
                ValueModel::Plaintext(PlaintextModel::Literal(literal)),
            ),
    {
        self.store_circuit(stack, register, Value::Plaintext(Plaintext::Literal(literal)))
    }
}

/// The registers of one call frame. The plain and the circuit register file
/// are two instances of the same register file; nothing here compares the
/// two, nor the plain identity with the circuit identity: to keep them in
/// step is the caller's business.
#[derive(Debug)]
pub struct Registers {
    call_stack: CallStack,
    plain: RegisterFile<Literal>,
    circuit: RegisterFile<CircuitLiteral>,
    caller: Option<Address>,
    tvk: Option<Field>,
    caller_circuit: Option<CircuitAddress>,
    tvk_circuit: Option<CircuitField>,
}

/// The mathematical value of the registers of a frame.
pub struct RegistersModel {
    pub call_stack: CallStack,
    pub frame: FrameModel<Literal>,
    pub circuit_frame: FrameModel<CircuitLiteral>,
    pub caller: Option<Address>,
    pub tvk: Option<Field>,
    pub caller_circuit: Option<CircuitAddress>,
    pub tvk_circuit: Option<CircuitField>,
}

impl View for Registers {
    type V = RegistersModel;

    closed spec fn view(&self) -> RegistersModel {
        RegistersModel {
            call_stack: self.call_stack,
            frame: self.plain@,
            circuit_frame: self.circuit@,
            caller: self.caller,
            tvk: self.tvk,
            caller_circuit: self.caller_circuit,
            tvk_circuit: self.tvk_circuit,
        }
    }
}

/// What opening the registers of a frame comes to: the plain frame and the
/// circuit frame, or the error of the first of the two that cannot be
/// opened.
pub open spec fn open_registers_outcome<S: StackProgram>(
    stack: S,
    function: Name,
    inputs: Seq<ValueModel<Literal>>,
    circuit_inputs: Seq<ValueModel<CircuitLiteral>>,
) -> Result<(FrameModel<Literal>, FrameModel<CircuitLiteral>), StackError> {
    match open_outcome(stack, function, inputs) {
        Err(error) => Err(error),
        Ok(plain) => match open_outcome(stack, function, circuit_inputs) {
            Err(error) => Err(error),
            Ok(circuit) => Ok((plain, circuit)),
        },
    }
}

/// The result of opening the registers of a frame, with the registers taken
/// by their two register files.
pub open spec fn opened_registers(result: Result<Registers, StackError>) -> Result<
    (FrameModel<Literal>, FrameModel<CircuitLiteral>),
    StackError,
> {
    match result {
        Ok(registers) => Ok((registers@.frame, registers@.circuit_frame)),
        Err(error) => Err(error),
    }
}

impl Registers {
    /// Opens the registers of a frame that runs `function` under
    /// `call_stack`, with the input registers holding `inputs` in the plain
    /// file and `circuit_inputs` in the circuit file. The identity of the
    /// caller is not set yet.
    pub fn new<S: StackProgram>(
        stack: &S,
        call_stack: CallStack,
        function: &Identifier,
        inputs: Vec<Value<Literal>>,
        circuit_inputs: Vec<Value<CircuitLiteral>>,
    ) -> (opened: Result<Registers, StackError>)
        ensures
            opened_registers(opened) == open_registers_outcome(
                *stack,
                function@,
                value_models(inputs@),
                value_models(circuit_inputs@),
            ),
            opened matches Ok(registers) ==> {
                &&& registers@.call_stack == call_stack
                &&& registers@.caller is None
                &&& registers@.tvk is None
                &&& registers@.caller_circuit is None
                &&& registers@.tvk_circuit is None
            },
    {
        let plain = match RegisterFile::new(stack, function, inputs) {
            Ok(plain) => plain,
            Err(error) => {
                return Err(error);
            },
        };
        let circuit = match RegisterFile::new(stack, function, circuit_inputs) {
            Ok(circuit) => circuit,
            Err(error) => {
                return Err(error);
            },
        };
        Ok(
            Registers {
                call_stack,
                plain,
                circuit,
                caller: None,
                tvk: None,
                caller_circuit: None,
                tvk_circuit: None,
            },
        )
    }
}

impl RegistersCall for Registers {
    open spec fn call_stack_spec(&self) -> CallStack {
        self@.call_stack
    }

    fn call_stack(&self) -> (call_stack: CallStack) {
        self.call_stack.clone()
    }
}

impl RegistersCaller for Registers {
    open spec fn caller_spec(&self) -> Option<Address> {
        self@.caller
    }

    open spec fn tvk_spec(&self) -> Option<Field> {
        self@.tvk
    }

    fn caller(&self) -> (caller: Result<Address, StackError>) {
        match self.caller {
            Some(caller) => Ok(caller),
            None => Err(StackError::IllegalAccess),
        }
    }

    fn set_caller(&mut self, caller: Address)
        ensures
            final(self)@ == (RegistersModel { caller: Some(caller), ..old(self)@ }),
    {
        self.caller = Some(caller);
    }

    fn tvk(&self) -> (tvk: Result<Field, StackError>) {
        match self.tvk {
            Some(tvk) => Ok(tvk),
            None => Err(StackError::IllegalAccess),
        }
    }

    fn set_tvk(&mut self, tvk: Field)
        ensures
            final(self)@ == (RegistersModel { tvk: Some(tvk), ..old(self)@ }),
    {
        self.tvk = Some(tvk);
    }
}

impl RegistersCallerCircuit for Registers {
    open spec fn caller_circuit_spec(&self) -> Option<CircuitAddress> {
        self@.caller_circuit
    }

    open spec fn tvk_circuit_spec(&self) -> Option<CircuitField> {
        self@.tvk_circuit
    }

    fn caller_circuit(&self) -> (caller_circuit: Result<CircuitAddress, StackError>) {
        match self.caller_circuit {
            Some(caller_circuit) => Ok(caller_circuit),
            None => Err(StackError::IllegalAccess),
        }
    }

    fn set_caller_circuit(&mut self, caller_circuit: CircuitAddress)
        ensures
            final(self)@ == (RegistersModel { caller_circuit: Some(caller_circuit), ..old(self)@ }),
    {
        self.caller_circuit = Some(caller_circuit);
    }

    fn tvk_circuit(&self) -> (tvk_circuit: Result<CircuitField, StackError>) {
        match self.tvk_circuit {
            Some(tvk_circuit) => Ok(tvk_circuit),
            None => Err(StackError::IllegalAccess),
        }
    }

    fn set_tvk_circuit(&mut self, tvk_circuit: CircuitField)
        ensures
            final(self)@ == (RegistersModel { tvk_circuit: Some(tvk_circuit), ..old(self)@ }),
    {
        self.tvk_circuit = Some(tvk_circuit);
    }
}

impl RegistersLoad for Registers {
    open spec fn frame(&self) -> FrameModel<Literal> {
        self@.frame
    }

    fn load<S: StackMatches + StackProgram>(&self, stack: &S, operand: &Operand) -> (result:
        Result<Value<Literal>, StackError>) {
        self.plain.load(operand)
    }
}

impl RegistersLoadCircuit for Registers {
    open spec fn circuit_frame(&self) -> FrameModel<CircuitLiteral> {
        self@.circuit_frame
    }

    fn load_circuit<S: StackMatches + StackProgram>(&self, stack: &S, operand: &Operand) -> (result:
        Result<Value<CircuitLiteral>, StackError>) {
        self.circuit.load(operand)
    }
}

impl RegistersStore for Registers {
    fn store<S: StackMatches + StackProgram>(
        &mut self,
        stack: &S,
        register: &Register,
        stack_value: Value<Literal>,
    ) -> (stored: Result<(), StackError>)
        ensures
            final(self)@ == (RegistersModel { frame: final(self)@.frame, ..old(self)@ }),
    {
        let register_type = match self.plain.target(stack, register) {
            Ok(register_type) => register_type,
            Err(error) => {
                return Err(error);
            },
        };
        match stack.matches_register_type(&stack_value, register_type) {
            Ok(()) => {
                self.plain.assign(register.locator(), stack_value);
                Ok(())
            },
            Err(error) => Err(error),
        }
    }
}

impl RegistersStoreCircuit for Registers {
    fn store_circuit<S: StackMatches + StackProgram>(
        &mut self,
        stack: &S,
        register: &Register,
        stack_value: Value<CircuitLiteral>,
    ) -> (stored: Result<(), StackError>)
        ensures
            final(self)@ == (RegistersModel {
                circuit_frame: final(self)@.circuit_frame,
                ..old(self)@
            }),
    {
        self.circuit.store(stack, register, stack_value)
    }
}

} // verus!
