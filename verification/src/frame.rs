//! The register file of one call frame, in either representation.
use std::collections::HashMap;
use vstd::prelude::*;

use crate::context::StackProgram;
use crate::error::StackError;
use crate::identifier::{Identifier, Name};
use crate::literal::Representation;
use crate::matcher::{match_register_type, register_type_matches, verdict};
use crate::operand::{Operand, Register};
use crate::types::{RegisterType, RegisterTypes};
use crate::value::{project, PlaintextModel, Plaintext, Value, ValueModel};

verus! {

broadcast use vstd::std_specs::hash::group_hash_axioms;

/// The mathematical value of a register file: the function whose frame it
/// is, the number of its input registers, and the value of each register
/// that has been assigned. A register is assigned at most once; the input
/// registers are assigned from the start.
pub struct FrameModel<L> {
    pub function: Name,
    pub num_inputs: nat,
    pub assigned: Map<u64, ValueModel<L>>,
}

/// The mathematical values of the values, in their order.
pub open spec fn value_models<L>(values: Seq<Value<L>>) -> Seq<ValueModel<L>> {
    Seq::new(values.len(), |i: int| values[i]@)
}

/// What opening a frame for `function` over the given input values comes
/// to. The function must be declared (`NotFound`), and there must be one
/// input value for each declared input register, each with the layout of
/// that register's type (`TypeMismatch`). The new frame holds the input
/// values in the input registers and nothing else.
pub open spec fn open_outcome<S: StackProgram, L: Representation>(
    stack: S,
    function: Name,
    inputs: Seq<ValueModel<L>>,
) -> Result<FrameModel<L>, StackError> {
    match stack.program_spec().register_types_of(function) {
        None => Err(StackError::NotFound),
        Some(types) => if inputs.len() == types.inputs@.len() && (forall|i: int|
            0 <= i < inputs.len() ==> register_type_matches(
                stack,
                #[trigger] inputs[i],
                types.inputs@[i],
            )) {
            Ok(
                FrameModel {
                    function,
                    num_inputs: inputs.len(),
                    assigned: Map::new(|k: u64| k < inputs.len(), |k: u64| inputs[k as int]),
                },
            )
        } else {
            Err(StackError::TypeMismatch)
        },
    }
}

/// What loading an operand from a frame comes to. A literal operand is
/// itself, taken into the frame's representation. A register operand needs
/// its slot assigned (`IllegalAccess`), and its path must lead somewhere in
/// the slot's value (`NotFound`).
pub open spec fn load_outcome<L: Representation>(frame: FrameModel<L>, operand: Operand) -> Result<
    ValueModel<L>,
    StackError,
> {
    match operand {
        Operand::Literal(literal) => Ok(
            ValueModel::Plaintext(PlaintextModel::Literal(L::inject(literal))),
        ),
        Operand::Register(register) => if !frame.assigned.contains_key(register.locator_spec()) {
            Err(StackError::IllegalAccess)
        } else {
            match project(frame.assigned[register.locator_spec()], register.path_spec()) {
                Some(value) => Ok(value),
                None => Err(StackError::NotFound),
            }
        },
    }
}

/// Which declared type a store into `register` must meet. The register must
/// name a whole slot, which is no input register and has not been assigned
/// (`IllegalAssignment` otherwise); then the frame's function must be
/// declared and must declare the register (`NotFound` otherwise).
pub open spec fn store_target<S: StackProgram, L>(
    frame: FrameModel<L>,
    stack: S,
    register: Register,
) -> Result<RegisterType, StackError> {
    if register is Member {
        Err(StackError::IllegalAssignment)
    } else if register.locator_spec() < frame.num_inputs {
        Err(StackError::IllegalAssignment)
    } else if frame.assigned.contains_key(register.locator_spec()) {
        Err(StackError::IllegalAssignment)
    } else {
        match stack.program_spec().register_types_of(frame.function) {
            None => Err(StackError::NotFound),
            Some(types) => match types.type_of(register.locator_spec()) {
                None => Err(StackError::NotFound),
                Some(register_type) => Ok(register_type),
            },
        }
    }
}

/// What storing a value into a register comes to: the store is accepted
/// where the register may be assigned and the value has the layout of the
/// register's declared type (`TypeMismatch` otherwise).
pub open spec fn store_outcome<S: StackProgram, L: Representation>(
    frame: FrameModel<L>,
    stack: S,
    register: Register,
    value: ValueModel<L>,
) -> Result<(), StackError> {
    match store_target(frame, stack, register) {
        Err(error) => Err(error),
        Ok(register_type) => verdict(register_type_matches(stack, value, register_type)),
    }
}

/// The frame after a store: with the register assigned where the store was
/// accepted, and unchanged where it was not.
pub open spec fn store_effect<S: StackProgram, L: Representation>(
    frame: FrameModel<L>,
    stack: S,
    register: Register,
    value: ValueModel<L>,
) -> FrameModel<L> {
    if store_outcome(frame, stack, register, value) is Ok {
        FrameModel {
            function: frame.function,
            num_inputs: frame.num_inputs,
            assigned: frame.assigned.insert(register.locator_spec(), value),
        }
    } else {
        frame
    }
}

/// The result of an operation that hands out a value, with the value taken
/// by its mathematical value.
pub open spec fn loaded<L>(result: Result<Value<L>, StackError>) -> Result<
    ValueModel<L>,
    StackError,
> {
    match result {
        Ok(value) => Ok(value@),
        Err(error) => Err(error),
    }
}

/// The result of an operation that hands out a reference, with the
/// reference taken by what it points to.
pub open spec fn pointee<T>(result: Result<&T, StackError>) -> Result<T, StackError> {
    match result {
        Ok(reference) => Ok(*reference),
        Err(error) => Err(error),
    }
}

/// The result of opening a frame, with the frame taken by its mathematical
/// value.
pub open spec fn opened_frame<L>(result: Result<RegisterFile<L>, StackError>) -> Result<
    FrameModel<L>,
    StackError,
> {
    match result {
        Ok(file) => Ok(file@),
        Err(error) => Err(error),
    }
}

/// The register file of one call frame.
#[derive(Debug)]
pub struct RegisterFile<L> {
    function: Identifier,
    num_inputs: usize,
    slots: HashMap<u64, Value<L>>,
}

impl<L> View for RegisterFile<L> {
    type V = FrameModel<L>;

    closed spec fn view(&self) -> FrameModel<L> {
        FrameModel {
            function: self.function@,
            num_inputs: self.num_inputs as nat,
            assigned: Map::new(
                |k: u64| self.slots@.contains_key(k),
                |k: u64| self.slots@[k]@,
            ),
        }
    }
}

impl<L: Representation> RegisterFile<L> {
    /// Opens the frame of `function` with the input registers holding
    /// `inputs`, in their order.
    pub fn new<S: StackProgram>(stack: &S, function: &Identifier, inputs: Vec<Value<L>>) -> (opened:
        Result<RegisterFile<L>, StackError>)
        ensures
            opened_frame(opened) == open_outcome(*stack, function@, value_models(inputs@)),
    {
        let types = match stack.get_register_types(function) {
            Ok(types) => types,
            Err(error) => {
                return Err(error);
            },
        };
        if inputs.len() != types.inputs.len() {
            return Err(StackError::TypeMismatch);
        }
        let ghost models = value_models(inputs@);
        let mut i: usize = 0;
        while i < inputs.len()
            invariant
                i <= inputs.len(),
                inputs.len() == types.inputs.len(),
                models == value_models(inputs@),
                stack.program_spec().register_types_of(function@) == Some(*types),
                forall|j: int|
                    0 <= j < i ==> register_type_matches(
                        *stack,
                        #[trigger] models[j],
                        types.inputs@[j],
                    ),
            decreases inputs.len() - i,
        {
            assert(models[i as int] == inputs@[i as int]@);
            if match_register_type(stack, &inputs[i], &types.inputs[i]).is_err() {
                return Err(StackError::TypeMismatch);
            }
            i = i + 1;
        }
        let num_inputs: usize = inputs.len();
        let mut remaining = inputs;
        let mut slots: HashMap<u64, Value<L>> = HashMap::new();
        while remaining.len() > 0
            invariant
                remaining.len() <= num_inputs,
                num_inputs == models.len(),
                forall|j: int| 0 <= j < remaining.len() ==> remaining@[j]@ == models[j],
                forall|k: u64| slots@.contains_key(k) <==> remaining.len() <= k < num_inputs,
                forall|k: u64| slots@.contains_key(k) ==> slots@[k]@ == models[k as int],
            decreases remaining.len(),
        {
            let k: usize = remaining.len() - 1;
            let value = remaining.pop().unwrap();
            slots.insert(k as u64, value);
        }
        let file = RegisterFile { function: function.clone(), num_inputs, slots };
        assert(file@.assigned =~= Map::new(
            |k: u64| k < models.len(),
            |k: u64| models[k as int],
        ));
        Ok(file)
    }

    /// Loads the value of the operand. Nothing changes.
    pub fn load(&self, operand: &Operand) -> (result: Result<Value<L>, StackError>)
        ensures
            loaded(result) == load_outcome(self@, *operand),
    {
        match operand {
            Operand::Literal(literal) => Ok(Value::Plaintext(Plaintext::Literal(L::constant(*literal)))),
            Operand::Register(register) => {
                let locator = register.locator();
                match self.slots.get(&locator) {
                    None => Err(StackError::IllegalAccess),
                    Some(value) => match register {
                        Register::Locator(_) => Ok(value.clone()),
                        Register::Member(_, path) => value.find(path),
                    },
                }
            },
        }
    }

    /// Finds the declared type that a store into `register` must meet.
    /// Nothing changes.
    pub(crate) fn target<'a, S: StackProgram>(&self, stack: &'a S, register: &Register) -> (declared:
        Result<&'a RegisterType, StackError>)
        ensures
            pointee(declared) == store_target(self@, *stack, *register),
    {
        let locator = match register {
            Register::Locator(locator) => *locator,
            Register::Member(_, _) => {
                return Err(StackError::IllegalAssignment);
            },
        };
        if locator < self.num_inputs as u64 {
            return Err(StackError::IllegalAssignment);
        }
        if self.slots.contains_key(&locator) {
            return Err(StackError::IllegalAssignment);
        }
        let types: &'a RegisterTypes = match stack.get_register_types(&self.function) {
            Ok(types) => types,
            Err(error) => {
                return Err(error);
            },
        };
        match types.get_type(locator) {
            Some(register_type) => Ok(register_type),
            None => Err(StackError::NotFound),
        }
    }

    /// Assigns the value to the slot `locator`, which must be free. No
    /// other slot changes.
    pub(crate) fn assign(&mut self, locator: u64, value: Value<L>)
        requires
            !old(self)@.assigned.contains_key(locator),
        ensures
            final(self)@ == (FrameModel {
                function: old(self)@.function,
                num_inputs: old(self)@.num_inputs,
                assigned: old(self)@.assigned.insert(locator, value@),
            }),
    {
        self.slots.insert(locator, value);
        assert(self@.assigned =~= old(self)@.assigned.insert(locator, value@));
    }

    /// Stores the value into the register, provided the register may be
    /// assigned and the value has the layout of the register's declared
    /// type. The comparison reads the kinds of the value's literals only.
    /// A store that is refused changes nothing.
    pub fn store<S: StackProgram>(&mut self, stack: &S, register: &Register, value: Value<L>) -> (stored:
        Result<(), StackError>)
        ensures
            stored == store_outcome(old(self)@, *stack, *register, value@),
            final(self)@ == store_effect(old(self)@, *stack, *register, value@),
    {
        let register_type = match self.target(stack, register) {
            Ok(register_type) => register_type,
            Err(error) => {
                return Err(error);
            },
        };
        match match_register_type(stack, &value, register_type) {
            Ok(()) => {
                self.assign(register.locator(), value);
                Ok(())
            },
            Err(error) => Err(error),
        }
    }
}

} // verus!
