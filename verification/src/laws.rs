//! What holds of the matcher, of the stack and of the register file,
//! whatever the program and the values.
use vstd::prelude::*;

use crate::context::StackProgram;
use crate::error::StackError;
use crate::frame::{
    load_outcome, open_outcome, store_effect, store_outcome, store_target, FrameModel,
};
use crate::identifier::{lemma_first_index, Identifier, Name, ProgramName};
use crate::literal::{LiteralType, Representation};
use crate::matcher::{plaintext_matches, record_matches, register_type_matches};
use crate::operand::{Operand, Register};
use crate::program::Program;
use crate::registers::{narrow_literal, narrow_plaintext};
use crate::stack::{program_ids, Stack};
use crate::types::{PlaintextType, RecordType, RegisterTypes};
use crate::value::{PlaintextModel, RecordModel, ValueModel};

verus! {

/// A literal has the layout of a literal type exactly when its kind is that
/// type: a literal of any other kind is refused, and so is a struct.
pub proof fn law_literal_matches_by_kind<L: Representation>(
    program: Program,
    plaintext: PlaintextModel<L>,
    kind: LiteralType,
)
    ensures
        plaintext_matches(program, plaintext, PlaintextType::Literal(kind)) <==> (
        plaintext matches PlaintextModel::Literal(literal) && literal.kind() == kind),
{
}

/// A plaintext has the layout of a declared struct exactly when it is a
/// struct with as many members as declared, each under the declared name
/// and with the layout of the declared type. A struct type that the program
/// does not declare is matched by nothing.
pub proof fn law_struct_matches_by_members<L: Representation>(
    program: Program,
    plaintext: PlaintextModel<L>,
    name: Identifier,
)
    ensures
        plaintext_matches(program, plaintext, PlaintextType::Struct(name)) <==> {
            &&& program.struct_of(name@) matches Some(declared)
            &&& plaintext matches PlaintextModel::Struct(members)
            &&& members.len() == declared.members@.len()
            &&& forall|i: int|
                0 <= i < members.len() ==> {
                    &&& (#[trigger] members[i]).0 == declared.members@[i].0@
                    &&& plaintext_matches(program, members[i].1, declared.members@[i].1)
                }
        },
{
}

/// A struct with another number of members than declared is refused.
pub proof fn law_member_count_differs<L: Representation>(
    program: Program,
    members: Seq<(Name, PlaintextModel<L>)>,
    name: Identifier,
)
    requires
        program.struct_of(name@) matches Some(declared) && members.len()
            != declared.members@.len(),
    ensures
        !plaintext_matches(program, PlaintextModel::Struct(members), PlaintextType::Struct(name)),
{
}

/// A struct with a member under another name than declared is refused.
pub proof fn law_member_name_differs<L: Representation>(
    program: Program,
    members: Seq<(Name, PlaintextModel<L>)>,
    name: Identifier,
    i: int,
)
    requires
        program.struct_of(name@) matches Some(declared) && 0 <= i < members.len() && i
            < declared.members@.len() && members[i].0 != declared.members@[i].0@,
    ensures
        !plaintext_matches(program, PlaintextModel::Struct(members), PlaintextType::Struct(name)),
{
}

/// A struct with a member that does not have the layout of the declared
/// member's type is refused.
pub proof fn law_member_type_differs<L: Representation>(
    program: Program,
    members: Seq<(Name, PlaintextModel<L>)>,
    name: Identifier,
    i: int,
)
    requires
        program.struct_of(name@) matches Some(declared) && 0 <= i < members.len() && i
            < declared.members@.len() && !plaintext_matches(
            program,
            members[i].1,
            declared.members@[i].1,
        ),
    ensures
        !plaintext_matches(program, PlaintextModel::Struct(members), PlaintextType::Struct(name)),
{
}

/// A record whose owner is an address, with as many fields as declared,
/// each under the declared name, with the declared visibility and with
/// contents of the declared type, has the layout of the declared record.
pub proof fn law_record_matches<L: Representation>(
    program: Program,
    record: RecordModel<L>,
    declared: RecordType,
)
    requires
        record.owner.kind() == LiteralType::Address,
        record.data.len() == declared.entries@.len(),
        forall|i: int|
            0 <= i < record.data.len() ==> {
                &&& (#[trigger] record.data[i]).0 == declared.entries@[i].0@
                &&& record.data[i].1.visibility == declared.entries@[i].1.visibility
                &&& plaintext_matches(
                    program,
                    record.data[i].1.plaintext,
                    declared.entries@[i].1.plaintext_type,
                )
            },
    ensures
        record_matches(program, record, declared),
{
}

/// A record with another number of fields than declared is refused.
pub proof fn law_field_count_differs<L: Representation>(
    program: Program,
    record: RecordModel<L>,
    declared: RecordType,
)
    requires
        record.data.len() != declared.entries@.len(),
    ensures
        !record_matches(program, record, declared),
{
}

/// A record with a field under another name than declared is refused.
pub proof fn law_field_name_differs<L: Representation>(
    program: Program,
    record: RecordModel<L>,
    declared: RecordType,
    i: int,
)
    requires
        0 <= i < record.data.len(),
        i < declared.entries@.len(),
        record.data[i].0 != declared.entries@[i].0@,
    ensures
        !record_matches(program, record, declared),
{
}

/// A record with a field of another visibility than declared is refused.
pub proof fn law_field_visibility_differs<L: Representation>(
    program: Program,
    record: RecordModel<L>,
    declared: RecordType,
    i: int,
)
    requires
        0 <= i < record.data.len(),
        i < declared.entries@.len(),
        record.data[i].1.visibility != declared.entries@[i].1.visibility,
    ensures
        !record_matches(program, record, declared),
{
}

/// A record with a field whose contents do not have the layout of the
/// declared type is refused.
pub proof fn law_field_type_differs<L: Representation>(
    program: Program,
    record: RecordModel<L>,
    declared: RecordType,
    i: int,
)
    requires
        0 <= i < record.data.len(),
        i < declared.entries@.len(),
        !plaintext_matches(
            program,
            record.data[i].1.plaintext,
            declared.entries@[i].1.plaintext_type,
        ),
    ensures
        !record_matches(program, record, declared),
{
}

/// Whether the value has the layout of the type that the signature declares
/// for the register `k`.
pub open spec fn has_declared_type<S: StackProgram, L: Representation>(
    stack: S,
    types: RegisterTypes,
    k: u64,
    value: ValueModel<L>,
) -> bool {
    match types.type_of(k) {
        Some(register_type) => register_type_matches(stack, value, register_type),
        None => false,
    }
}

/// Whether every register that is assigned holds a value with the layout of
/// the type that the frame's function declares for it, and every input
/// register is assigned.
pub open spec fn well_typed<S: StackProgram, L: Representation>(
    frame: FrameModel<L>,
    stack: S,
) -> bool {
    match stack.program_spec().register_types_of(frame.function) {
        Some(types) => {
            &&& forall|k: u64| #[trigger]
                frame.assigned.contains_key(k) ==> has_declared_type(
                    stack,
                    types,
                    k,
                    frame.assigned[k],
                )
            &&& forall|k: u64| k < frame.num_inputs ==> #[trigger] frame.assigned.contains_key(k)
        },
        None => false,
    }
}

/// A frame is well typed when it is opened, and exactly its input registers
/// are assigned then.
pub proof fn law_opened_frame_is_well_typed<S: StackProgram, L: Representation>(
    stack: S,
    function: Name,
    inputs: Seq<ValueModel<L>>,
)
    requires
        open_outcome(stack, function, inputs) is Ok,
    ensures
        well_typed(open_outcome(stack, function, inputs)->Ok_0, stack),
        forall|k: u64| #[trigger]
            open_outcome(stack, function, inputs)->Ok_0.assigned.contains_key(k) <==> k
                < inputs.len(),
{
}

/// A store, accepted or refused, keeps a well typed frame well typed, as
/// long as it is judged by the stack that the frame is typed by.
pub proof fn law_store_keeps_frame_well_typed<S: StackProgram, L: Representation>(
    frame: FrameModel<L>,
    stack: S,
    register: Register,
    value: ValueModel<L>,
)
    requires
        well_typed(frame, stack),
    ensures
        well_typed(store_effect(frame, stack, register, value), stack),
{
}

/// Once a store into a register has been accepted, every further store into
/// that register is refused as an illegal assignment, whatever the value
/// and whatever the stack it is judged by. The same holds after a store
/// that was itself refused as an illegal assignment.
pub proof fn law_second_store_fails<S: StackProgram, L: Representation>(
    frame: FrameModel<L>,
    stack: S,
    register: Register,
    first: ValueModel<L>,
    again: S,
    second: ValueModel<L>,
)
    requires
        store_outcome(frame, stack, register, first) is Ok || store_outcome(
            frame,
            stack,
            register,
            first,
        ) == Err::<(), StackError>(StackError::IllegalAssignment),
    ensures
        store_outcome(store_effect(frame, stack, register, first), again, register, second)
            == Err::<(), StackError>(StackError::IllegalAssignment),
{
}

/// A store is accepted only of a value that has the layout of the type that
/// the frame's function declares for the register.
pub proof fn law_store_checks_the_declared_type<S: StackProgram, L: Representation>(
    frame: FrameModel<L>,
    stack: S,
    register: Register,
    value: ValueModel<L>,
)
    requires
        store_outcome(frame, stack, register, value) is Ok,
    ensures
        stack.program_spec().register_types_of(frame.function) matches Some(types)
            && types.type_of(register.locator_spec()) matches Some(register_type)
            && register_type_matches(stack, value, register_type),
        store_target(frame, stack, register) is Ok,
{
}

/// A store into an input register or into a member of a register is
/// refused as an illegal assignment, whatever the value.
pub proof fn law_inputs_and_members_are_not_stored<S: StackProgram, L: Representation>(
    frame: FrameModel<L>,
    stack: S,
    register: Register,
    value: ValueModel<L>,
)
    requires
        register is Member || register.locator_spec() < frame.num_inputs,
    ensures
        store_outcome(frame, stack, register, value) == Err::<(), StackError>(
            StackError::IllegalAssignment,
        ),
        store_effect(frame, stack, register, value) == frame,
{
}

/// A store changes at most the register it names: the frame's function and
/// inputs stay, every other register keeps its state and its value, and no
/// register that was assigned loses or changes its value. A store that is
/// refused changes nothing.
pub proof fn law_store_keeps_the_rest<S: StackProgram, L: Representation>(
    frame: FrameModel<L>,
    stack: S,
    register: Register,
    value: ValueModel<L>,
)
    ensures
        ({
            let after = store_effect(frame, stack, register, value);
            &&& after.function == frame.function
            &&& after.num_inputs == frame.num_inputs
            &&& forall|k: u64|
                k != register.locator_spec() ==> (after.assigned.contains_key(k)
                    <==> frame.assigned.contains_key(k))
            &&& forall|k: u64|
                frame.assigned.contains_key(k) ==> after.assigned.contains_key(k)
                    && after.assigned[k] == frame.assigned[k]
            &&& store_outcome(frame, stack, register, value) is Err ==> after == frame
        }),
{
}

/// A value that was stored into a register is what a load of that register
/// hands back.
pub proof fn law_store_then_load<S: StackProgram, L: Representation>(
    frame: FrameModel<L>,
    stack: S,
    register: Register,
    value: ValueModel<L>,
)
    requires
        store_outcome(frame, stack, register, value) is Ok,
    ensures
        load_outcome(
            store_effect(frame, stack, register, value),
            Operand::Register(Register::Locator(register.locator_spec())),
        ) == Ok::<ValueModel<L>, StackError>(value),
        load_outcome(store_effect(frame, stack, register, value), Operand::Register(register))
            == Ok::<ValueModel<L>, StackError>(value),
{
}

/// Narrowing to a literal succeeds exactly when the load hands out a
/// plaintext that is a literal; narrowing to a plaintext succeeds exactly
/// when the load hands out a plaintext.
pub proof fn law_narrowing<L>(result: Result<ValueModel<L>, StackError>)
    ensures
        narrow_literal(result) is Ok <==> (result matches Ok(ValueModel::Plaintext(plaintext))
            && plaintext is Literal),
        narrow_plaintext(result) is Ok <==> (result matches Ok(value) && value is Plaintext),
        result matches Ok(ValueModel::Plaintext(PlaintextModel::Literal(literal)))
            ==> narrow_literal(result) == Ok::<L, StackError>(literal),
        result matches Ok(ValueModel::Plaintext(plaintext)) ==> narrow_plaintext(result) == Ok::<
            PlaintextModel<L>,
            StackError,
        >(plaintext),
{
}

/// A stack knows an imported program exactly when one of the stacks it was
/// built over is the stack of that program, and then it is the first such
/// stack that answers for it.
pub proof fn law_external_is_registered(stack: Stack, program_id: ProgramName)
    ensures
        stack.external_spec(program_id) is Some <==> exists|i: int|
            0 <= i < stack.imported().len() && (#[trigger] stack.imported()[i]).declared().id@
                == program_id,
        stack.external_spec(program_id) matches Some(external) ==> external.declared().id@
            == program_id,
{
    let ids = program_ids(stack.imported());
    lemma_first_index(ids, program_id);
    if stack.external_spec(program_id) is None {
        assert forall|i: int| 0 <= i < stack.imported().len() implies (
        #[trigger] stack.imported()[i]).declared().id@ != program_id by {
            assert(ids[i] == stack.imported()[i].declared().id@);
        }
    }
}

} // verus!
