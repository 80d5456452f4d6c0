//! The plain and the circuit register file in step: what is decided of a
//! value depends on its shape alone, so two files that are driven with
//! values of the same shapes decide alike and stay alike.
use vstd::prelude::*;

use crate::context::StackProgram;
use crate::error::StackError;
use crate::frame::{
    load_outcome, open_outcome, store_effect, store_outcome, store_target, FrameModel,
};
use crate::identifier::{lemma_first_index, Name};
use crate::literal::Representation;
use crate::matcher::{plaintext_matches, record_matches, register_type_matches};
use crate::operand::{Operand, Register};
use crate::program::Program;
use crate::types::{PlaintextType, RecordType, RegisterType};
use crate::value::{
    member_index, member_names, project, project_plaintext, PlaintextModel, RecordModel,
    ValueModel,
};

verus! {

/// Whether two plaintexts, each in its own representation, have the same
/// shape: both are literals of one kind, or both are structs with the same
/// member names in the same order over members of the same shapes.
pub open spec fn same_shape<L: Representation, M: Representation>(
    a: PlaintextModel<L>,
    b: PlaintextModel<M>,
) -> bool
    decreases a,
{
    match a {
        PlaintextModel::Literal(x) => b matches PlaintextModel::Literal(y) && x.kind() == y.kind(),
        PlaintextModel::Struct(xs) => {
            &&& b matches PlaintextModel::Struct(ys)
            &&& xs.len() == ys.len()
            &&& forall|i: int|
                0 <= i < xs.len() ==> {
                    &&& (#[trigger] xs[i]).0 == ys[i].0
                    &&& same_shape(xs[i].1, ys[i].1)
                }
        },
    }
}

/// Whether two records have the same shape: owners of one kind, and the
/// same field names in the same order over fields of the same visibility and
/// shape.
pub open spec fn same_record_shape<L: Representation, M: Representation>(
    a: RecordModel<L>,
    b: RecordModel<M>,
) -> bool {
    &&& a.owner.kind() == b.owner.kind()
    &&& a.data.len() == b.data.len()
    &&& forall|i: int|
        0 <= i < a.data.len() ==> {
            &&& (#[trigger] a.data[i]).0 == b.data[i].0
            &&& a.data[i].1.visibility == b.data[i].1.visibility
            &&& same_shape(a.data[i].1.plaintext, b.data[i].1.plaintext)
        }
}

/// Whether two values have the same shape.
pub open spec fn same_value_shape<L: Representation, M: Representation>(
    a: ValueModel<L>,
    b: ValueModel<M>,
) -> bool {
    match a {
        ValueModel::Plaintext(x) => b matches ValueModel::Plaintext(y) && same_shape(x, y),
        ValueModel::Record(x) => b matches ValueModel::Record(y) && same_record_shape(x, y),
    }
}

/// Whether two register files are in step: they are frames of one function
/// with as many inputs, the same registers are assigned in both, and what
/// each register holds has the same shape in both.
pub open spec fn in_step<L: Representation, M: Representation>(
    a: FrameModel<L>,
    b: FrameModel<M>,
) -> bool {
    &&& a.function == b.function
    &&& a.num_inputs == b.num_inputs
    &&& forall|k: u64| a.assigned.contains_key(k) <==> b.assigned.contains_key(k)
    &&& forall|k: u64|
        a.assigned.contains_key(k) ==> same_value_shape(
            #[trigger] a.assigned[k],
            b.assigned[k],
        )
}

/// Whether two results agree: both fail with one error, or both succeed
/// with values of the same shape.
pub open spec fn same_result_shape<L: Representation, M: Representation>(
    a: Result<ValueModel<L>, StackError>,
    b: Result<ValueModel<M>, StackError>,
) -> bool {
    match a {
        Ok(x) => b matches Ok(y) && same_value_shape(x, y),
        Err(error) => b matches Err(other) && error == other,
    }
}

/// Plaintexts of the same shape have the layout of the same plaintext
/// types.
pub proof fn lemma_plaintext_matches_by_shape<L: Representation, M: Representation>(
    program: Program,
    a: PlaintextModel<L>,
    b: PlaintextModel<M>,
    plaintext_type: PlaintextType,
)
    requires
        same_shape(a, b),
    ensures
        plaintext_matches(program, a, plaintext_type) == plaintext_matches(
            program,
            b,
            plaintext_type,
        ),
    decreases a,
{
    if let PlaintextType::Struct(name) = plaintext_type {
        if let Some(declared) = program.struct_of(name@) {
            if let PlaintextModel::Struct(xs) = a {
                let ys = b->Struct_0;
                if xs.len() == declared.members@.len() {
                    assert forall|i: int| 0 <= i < xs.len() implies (#[trigger] xs[i]).0
                        == ys[i].0 && plaintext_matches(program, xs[i].1, declared.members@[i].1)
                        == plaintext_matches(program, ys[i].1, declared.members@[i].1) by {
                        lemma_plaintext_matches_by_shape(
                            program,
                            xs[i].1,
                            ys[i].1,
                            declared.members@[i].1,
                        );
                    }
                    if plaintext_matches(program, a, plaintext_type) {
                        assert forall|i: int| 0 <= i < ys.len() implies (#[trigger] ys[i]).0
                            == declared.members@[i].0@ && plaintext_matches(
                            program,
                            ys[i].1,
                            declared.members@[i].1,
                        ) by {
                            assert(xs[i].0 == declared.members@[i].0@);
                        }
                    }
                }
            }
        }
    }
}

/// Records of the same shape have the layout of the same declared records.
pub proof fn lemma_record_matches_by_shape<L: Representation, M: Representation>(
    program: Program,
    a: RecordModel<L>,
    b: RecordModel<M>,
    declared: RecordType,
)
    requires
        same_record_shape(a, b),
    ensures
        record_matches(program, a, declared) == record_matches(program, b, declared),
{
    if a.data.len() == declared.entries@.len() {
        assert forall|i: int| 0 <= i < a.data.len() implies plaintext_matches(
            program,
            (#[trigger] a.data[i]).1.plaintext,
            declared.entries@[i].1.plaintext_type,
        ) == plaintext_matches(
            program,
            b.data[i].1.plaintext,
            declared.entries@[i].1.plaintext_type,
        ) by {
            lemma_plaintext_matches_by_shape(
                program,
                a.data[i].1.plaintext,
                b.data[i].1.plaintext,
                declared.entries@[i].1.plaintext_type,
            );
        }
        if record_matches(program, a, declared) {
            assert forall|i: int| 0 <= i < b.data.len() implies {
                &&& (#[trigger] b.data[i]).0 == declared.entries@[i].0@
                &&& b.data[i].1.visibility == declared.entries@[i].1.visibility
                &&& plaintext_matches(
                    program,
                    b.data[i].1.plaintext,
                    declared.entries@[i].1.plaintext_type,
                )
            } by {
                assert(a.data[i].0 == declared.entries@[i].0@);
            }
        }
    }
}

/// Values of the same shape have the layout of the same register types.
pub proof fn law_register_type_matches_by_shape<
    S: StackProgram,
    L: Representation,
    M: Representation,
>(stack: S, a: ValueModel<L>, b: ValueModel<M>, register_type: RegisterType)
    requires
        same_value_shape(a, b),
    ensures
        register_type_matches(stack, a, register_type) == register_type_matches(
            stack,
            b,
            register_type,
        ),
{
    match (a, register_type) {
        (ValueModel::Plaintext(x), RegisterType::Plaintext(plaintext_type)) => {
            lemma_plaintext_matches_by_shape(
                stack.program_spec(),
                x,
                b->Plaintext_0,
                plaintext_type,
            );
        },
        (ValueModel::Record(x), RegisterType::Record(name)) => {
            if let Some(declared) = stack.program_spec().record_of(name@) {
                lemma_record_matches_by_shape(stack.program_spec(), x, b->Record_0, declared);
            }
        },
        (ValueModel::Record(x), RegisterType::ExternalRecord(locator)) => {
            if let Some(external) = stack.external_spec(locator@.0) {
                if let Some(declared) = external.program_spec().record_of(locator@.1) {
                    lemma_record_matches_by_shape(
                        external.program_spec(),
                        x,
                        b->Record_0,
                        declared,
                    );
                }
            }
        },
        _ => {},
    }
}

/// Plaintexts of the same shape are projected alike: a path leads somewhere
/// in both or in neither, and where it leads has the same shape in both.
pub proof fn lemma_project_plaintext_by_shape<L: Representation, M: Representation>(
    a: PlaintextModel<L>,
    b: PlaintextModel<M>,
    path: Seq<Name>,
    start: int,
)
    requires
        same_shape(a, b),
    ensures
        match project_plaintext(a, path, start) {
            Some(x) => project_plaintext(b, path, start) matches Some(y) && same_shape(x, y),
            None => project_plaintext(b, path, start) is None,
        },
    decreases path.len() - start,
{
    if 0 <= start < path.len() {
        if let PlaintextModel::Struct(xs) = a {
            let ys = b->Struct_0;
            assert(member_names(xs) =~= member_names(ys));
            if let Some(i) = member_index(xs, path[start]) {
                lemma_first_index(member_names(xs), path[start]);
                lemma_project_plaintext_by_shape(xs[i].1, ys[i].1, path, start + 1);
            }
        }
    }
}

/// Values of the same shape are projected alike.
pub proof fn lemma_project_by_shape<L: Representation, M: Representation>(
    a: ValueModel<L>,
    b: ValueModel<M>,
    path: Seq<Name>,
)
    requires
        same_value_shape(a, b),
    ensures
        match project(a, path) {
            Some(x) => project(b, path) matches Some(y) && same_value_shape(x, y),
            None => project(b, path) is None,
        },
{
    if path.len() > 0 {
        match a {
            ValueModel::Plaintext(x) => {
                lemma_project_plaintext_by_shape(x, b->Plaintext_0, path, 0);
            },
            ValueModel::Record(x) => {
                let y = b->Record_0;
                assert(member_names(x.data) =~= member_names(y.data));
                if let Some(i) = member_index(x.data, path[0]) {
                    lemma_first_index(member_names(x.data), path[0]);
                    lemma_project_plaintext_by_shape(
                        x.data[i].1.plaintext,
                        y.data[i].1.plaintext,
                        path,
                        1,
                    );
                }
            },
        }
    }
}

/// Two register files that are opened for one function over inputs of the
/// same shapes are both opened, and are in step, or are both refused with
/// the same error.
pub proof fn law_frames_open_in_step<S: StackProgram, L: Representation, M: Representation>(
    stack: S,
    function: Name,
    inputs: Seq<ValueModel<L>>,
    circuit_inputs: Seq<ValueModel<M>>,
)
    requires
        inputs.len() == circuit_inputs.len(),
        forall|i: int|
            0 <= i < inputs.len() ==> same_value_shape(#[trigger] inputs[i], circuit_inputs[i]),
    ensures
        match open_outcome(stack, function, inputs) {
            Ok(a) => open_outcome(stack, function, circuit_inputs) matches Ok(b) && in_step(a, b),
            Err(error) => open_outcome(stack, function, circuit_inputs) matches Err(other)
                && error == other,
        },
{
    if let Some(types) = stack.program_spec().register_types_of(function) {
        if inputs.len() == types.inputs@.len() {
            assert forall|i: int| 0 <= i < inputs.len() implies register_type_matches(
                stack,
                #[trigger] inputs[i],
                types.inputs@[i],
            ) == register_type_matches(stack, circuit_inputs[i], types.inputs@[i]) by {
                law_register_type_matches_by_shape(
                    stack,
                    inputs[i],
                    circuit_inputs[i],
                    types.inputs@[i],
                );
            }
            if open_outcome(stack, function, inputs) is Ok {
                assert forall|i: int| 0 <= i < circuit_inputs.len() implies register_type_matches(
                    stack,
                    #[trigger] circuit_inputs[i],
                    types.inputs@[i],
                ) by {
                    assert(register_type_matches(stack, inputs[i], types.inputs@[i]));
                }
            }
        }
    }
}

/// Two register files that are in step accept or refuse a store alike, with
/// the same error, when the values stored have the same shape; and they are
/// in step afterwards.
pub proof fn law_stores_stay_in_step<S: StackProgram, L: Representation, M: Representation>(
    a: FrameModel<L>,
    b: FrameModel<M>,
    stack: S,
    register: Register,
    value: ValueModel<L>,
    circuit_value: ValueModel<M>,
)
    requires
        in_step(a, b),
        same_value_shape(value, circuit_value),
    ensures
        store_outcome(a, stack, register, value) == store_outcome(
            b,
            stack,
            register,
            circuit_value,
        ),
        in_step(
            store_effect(a, stack, register, value),
            store_effect(b, stack, register, circuit_value),
        ),
{
    if let Ok(register_type) = store_target(a, stack, register) {
        law_register_type_matches_by_shape(stack, value, circuit_value, register_type);
    }
}

/// Two register files that are in step answer a load alike: both fail with
/// the same error, or both hand out values of the same shape.
pub proof fn law_loads_agree_in_step<L: Representation, M: Representation>(
    a: FrameModel<L>,
    b: FrameModel<M>,
    operand: Operand,
)
    requires
        in_step(a, b),
    ensures
        same_result_shape(load_outcome(a, operand), load_outcome(b, operand)),
{
    match operand {
        Operand::Literal(literal) => {
            L::lemma_inject_kind(literal);
            M::lemma_inject_kind(literal);
        },
        Operand::Register(register) => {
            let k = register.locator_spec();
            if a.assigned.contains_key(k) {
                lemma_project_by_shape(a.assigned[k], b.assigned[k], register.path_spec());
            }
        },
    }
}

} // verus!
