//! The structural comparison of values with declared types. It reads only
//! the kinds of literals, never their contents, so the same comparison
//! serves plain values and values wired into a circuit.
use vstd::prelude::*;

use crate::context::StackProgram;
use crate::error::StackError;
use crate::identifier::{Identifier, Locator, LocatorName, Name};
use crate::literal::{LiteralType, Representation};
use crate::program::Program;
use crate::types::{PlaintextType, RecordType, RegisterType, ValueType};
use crate::value::{Plaintext, PlaintextModel, Record, RecordModel, Value, ValueModel};

verus! {

/// The result of a check: success where the value matches, a structural
/// mismatch where it does not.
pub open spec fn verdict(matches: bool) -> Result<(), StackError> {
    if matches {
        Ok(())
    } else {
        Err(StackError::TypeMismatch)
    }
}

/// Whether the plaintext has the layout of the plaintext type, in a program.
/// Against a kind of literal: it is a literal of exactly that kind. Against
/// a struct: the program declares the struct, and the plaintext is a struct
/// with as many members, under the same names in the same order, each of
/// which has the layout of the declared member's type.
pub open spec fn plaintext_matches<L: Representation>(
    program: Program,
    plaintext: PlaintextModel<L>,
    plaintext_type: PlaintextType,
) -> bool
    decreases plaintext,
{
    match plaintext_type {
        PlaintextType::Literal(kind) => match plaintext {
            PlaintextModel::Literal(literal) => literal.kind() == kind,
            PlaintextModel::Struct(_) => false,
        },
        PlaintextType::Struct(name) => match program.struct_of(name@) {
            None => false,
            Some(declared) => match plaintext {
                PlaintextModel::Literal(_) => false,
                PlaintextModel::Struct(members) => {
                    &&& members.len() == declared.members@.len()
                    &&& forall|i: int|
                        0 <= i < members.len() ==> {
                            &&& (#[trigger] members[i]).0 == declared.members@[i].0@
                            &&& plaintext_matches(program, members[i].1, declared.members@[i].1)
                        }
                },
            },
        },
    }
}

/// Whether the record has the layout of the declared record, in the program
/// that declares it: the owner is an address, and the record has as many
/// fields, under the same names in the same order, each with the declared
/// visibility and with contents of the declared plaintext type.
pub open spec fn record_matches<L: Representation>(
    program: Program,
    record: RecordModel<L>,
    declared: RecordType,
) -> bool {
    &&& record.owner.kind() == LiteralType::Address
    &&& record.data.len() == declared.entries@.len()
    &&& forall|i: int|
        0 <= i < record.data.len() ==> {
            &&& (#[trigger] record.data[i]).0 == declared.entries@[i].0@
            &&& record.data[i].1.visibility == declared.entries@[i].1.visibility
            &&& plaintext_matches(
                program,
                record.data[i].1.plaintext,
                declared.entries@[i].1.plaintext_type,
            )
        }
}

/// Whether the record has the layout of the stack's own record `name`.
pub open spec fn local_record_matches<S: StackProgram, L: Representation>(
    stack: S,
    record: RecordModel<L>,
    name: Name,
) -> bool {
    match stack.program_spec().record_of(name) {
        Some(declared) => record_matches(stack.program_spec(), record, declared),
        None => false,
    }
}

/// Whether the record has the layout of the record that `locator` names:
/// the program was imported, and by that program's own judgement the record
/// has the layout of its record of that name.
pub open spec fn external_record_matches<S: StackProgram, L: Representation>(
    stack: S,
    record: RecordModel<L>,
    locator: LocatorName,
) -> bool {
    match stack.external_spec(locator.0) {
        Some(external) => local_record_matches(external, record, locator.1),
        None => false,
    }
}

/// Whether `locator` names a record of an imported program.
pub open spec fn external_record_resolves<S: StackProgram>(stack: S, locator: LocatorName) -> bool {
    stack.external_spec(locator.0) matches Some(external) && external.program_spec().record_of(
        locator.1,
    ) is Some
}

/// Whether the value has the layout of the value type.
pub open spec fn value_type_matches<S: StackProgram, L: Representation>(
    stack: S,
    value: ValueModel<L>,
    value_type: ValueType,
) -> bool {
    match (value, value_type) {
        (ValueModel::Plaintext(plaintext), ValueType::Constant(plaintext_type)) => plaintext_matches(
            stack.program_spec(),
            plaintext,
            plaintext_type,
        ),
        (ValueModel::Plaintext(plaintext), ValueType::Public(plaintext_type)) => plaintext_matches(
            stack.program_spec(),
            plaintext,
            plaintext_type,
        ),
        (ValueModel::Plaintext(plaintext), ValueType::Private(plaintext_type)) => plaintext_matches(
            stack.program_spec(),
            plaintext,
            plaintext_type,
        ),
        (ValueModel::Record(record), ValueType::Record(name)) => local_record_matches(
            stack,
            record,
            name@,
        ),
        (ValueModel::Record(record), ValueType::ExternalRecord(locator)) => external_record_matches(
            stack,
            record,
            locator@,
        ),
        _ => false,
    }
}

/// Whether the value has the layout of the register type. A register typed
/// as the output of a call into another program takes any record, provided
/// the locator names a record of an imported program.
pub open spec fn register_type_matches<S: StackProgram, L: Representation>(
    stack: S,
    value: ValueModel<L>,
    register_type: RegisterType,
) -> bool {
    match (value, register_type) {
        (ValueModel::Plaintext(plaintext), RegisterType::Plaintext(plaintext_type)) => plaintext_matches(
            stack.program_spec(),
            plaintext,
            plaintext_type,
        ),
        (ValueModel::Record(record), RegisterType::Record(name)) => local_record_matches(
            stack,
            record,
            name@,
        ),
        (ValueModel::Record(record), RegisterType::ExternalRecord(locator)) => external_record_matches(
            stack,
            record,
            locator@,
        ),
        (ValueModel::Record(_), RegisterType::ExternalOutput(locator)) => external_record_resolves(
            stack,
            locator@,
        ),
        _ => false,
    }
}

/// Checks that the plaintext has the layout of the plaintext type.
#[verifier::loop_isolation(false)]
pub fn match_plaintext<L: Representation>(
    program: &Program,
    plaintext: &Plaintext<L>,
    plaintext_type: &PlaintextType,
) -> (checked: Result<(), StackError>)
    ensures
        checked == verdict(plaintext_matches(*program, plaintext@, *plaintext_type)),
    decreases plaintext,
{
    match plaintext_type {
        PlaintextType::Literal(kind) => match plaintext {
            Plaintext::Literal(literal) => {
                if literal.to_type() == *kind {
                    Ok(())
                } else {
                    Err(StackError::TypeMismatch)
                }
            },
            Plaintext::Struct(_) => Err(StackError::TypeMismatch),
        },
        PlaintextType::Struct(name) => {
            let declared = match program.get_struct(name) {
                Ok(declared) => declared,
                Err(_) => {
                    return Err(StackError::TypeMismatch);
                },
            };
            let members = match plaintext {
                Plaintext::Literal(_) => {
                    return Err(StackError::TypeMismatch);
                },
                Plaintext::Struct(members) => members,
            };
            if members.len() != declared.members.len() {
                return Err(StackError::TypeMismatch);
            }
            let ghost models = plaintext@->Struct_0;
            let mut i: usize = 0;
            while i < members.len()
                invariant
                    i <= members.len(),
                    forall|j: int|
                        0 <= j < i ==> {
                            &&& (#[trigger] models[j]).0 == declared.members@[j].0@
                            &&& plaintext_matches(*program, models[j].1, declared.members@[j].1)
                        },
                decreases members.len() - i,
            {
                assert(models[i as int] == (members@[i as int].0@, members@[i as int].1@));
                if !members[i].0.same_as(&declared.members[i].0) {
                    return Err(StackError::TypeMismatch);
                }
                if match_plaintext(program, &members[i].1, &declared.members[i].1).is_err() {
                    return Err(StackError::TypeMismatch);
                }
                i = i + 1;
            }
            Ok(())
        },
    }
}

/// Checks that the record has the layout of the declared record, in the
/// program that declares it.
pub fn match_record<L: Representation>(
    program: &Program,
    record: &Record<L>,
    declared: &RecordType,
) -> (checked: Result<(), StackError>)
    ensures
        checked == verdict(record_matches(*program, record@, *declared)),
{
    if !(record.owner.to_type() == LiteralType::Address) {
        return Err(StackError::TypeMismatch);
    }
    if record.data.len() != declared.entries.len() {
        return Err(StackError::TypeMismatch);
    }
    let ghost models = record@.data;
    let mut i: usize = 0;
    while i < record.data.len()
        invariant
            i <= record.data.len(),
            models == record@.data,
            record.data.len() == declared.entries.len(),
            forall|j: int|
                0 <= j < i ==> {
                    &&& (#[trigger] models[j]).0 == declared.entries@[j].0@
                    &&& models[j].1.visibility == declared.entries@[j].1.visibility
                    &&& plaintext_matches(
                        *program,
                        models[j].1.plaintext,
                        declared.entries@[j].1.plaintext_type,
                    )
                },
        decreases record.data.len() - i,
    {
        assert(models[i as int] == (record.data@[i as int].0@, record.data@[i as int].1@));
        if !record.data[i].0.same_as(&declared.entries[i].0) {
            return Err(StackError::TypeMismatch);
        }
        if !(record.data[i].1.visibility == declared.entries[i].1.visibility) {
            return Err(StackError::TypeMismatch);
        }
        if match_plaintext(
            program,
            &record.data[i].1.plaintext,
            &declared.entries[i].1.plaintext_type,
        ).is_err() {
            return Err(StackError::TypeMismatch);
        }
        i = i + 1;
    }
    Ok(())
}

/// Checks that the record has the layout of the stack's own record of the
/// given name.
pub fn match_local_record<S: StackProgram, L: Representation>(
    stack: &S,
    record: &Record<L>,
    record_name: &Identifier,
) -> (checked: Result<(), StackError>)
    ensures
        checked == verdict(local_record_matches(*stack, record@, record_name@)),
{
    let program = stack.program();
    match program.get_record(record_name) {
        Ok(declared) => match_record(program, record, declared),
        Err(_) => Err(StackError::TypeMismatch),
    }
}

/// Checks that the record has the layout of the record that `locator` names
/// in an imported program, by handing the record to that program's stack.
pub fn match_external_record<S: StackProgram, L: Representation>(
    stack: &S,
    record: &Record<L>,
    locator: &Locator,
) -> (checked: Result<(), StackError>)
    ensures
        checked == verdict(external_record_matches(*stack, record@, locator@)),
{
    match stack.get_external_stack(&locator.program_id) {
        Ok(external) => match_local_record(external, record, &locator.resource),
        Err(_) => Err(StackError::TypeMismatch),
    }
}

/// Checks that the value has the layout of the value type.
pub fn match_value_type<S: StackProgram, L: Representation>(
    stack: &S,
    value: &Value<L>,
    value_type: &ValueType,
) -> (checked: Result<(), StackError>)
    ensures
        checked == verdict(value_type_matches(*stack, value@, *value_type)),
{
    match value {
        Value::Plaintext(plaintext) => match value_type {
            ValueType::Constant(plaintext_type) => match_plaintext(
                stack.program(),
                plaintext,
                plaintext_type,
            ),
            ValueType::Public(plaintext_type) => match_plaintext(
                stack.program(),
                plaintext,
                plaintext_type,
            ),
            ValueType::Private(plaintext_type) => match_plaintext(
                stack.program(),
                plaintext,
                plaintext_type,
            ),
            ValueType::Record(_) => Err(StackError::TypeMismatch),
            ValueType::ExternalRecord(_) => Err(StackError::TypeMismatch),
        },
        Value::Record(record) => match value_type {
            ValueType::Record(name) => match_local_record(stack, record, name),
            ValueType::ExternalRecord(locator) => match_external_record(stack, record, locator),
            ValueType::Constant(_) => Err(StackError::TypeMismatch),
            ValueType::Public(_) => Err(StackError::TypeMismatch),
            ValueType::Private(_) => Err(StackError::TypeMismatch),
        },
    }
}

/// Checks that the value has the layout of the register type.
pub fn match_register_type<S: StackProgram, L: Representation>(
    stack: &S,
    value: &Value<L>,
    register_type: &RegisterType,
) -> (checked: Result<(), StackError>)
    ensures
        checked == verdict(register_type_matches(*stack, value@, *register_type)),
{
    match value {
        Value::Plaintext(plaintext) => match register_type {
            RegisterType::Plaintext(plaintext_type) => match_plaintext(
                stack.program(),
                plaintext,
                plaintext_type,
            ),
            RegisterType::Record(_) => Err(StackError::TypeMismatch),
            RegisterType::ExternalRecord(_) => Err(StackError::TypeMismatch),
            RegisterType::ExternalOutput(_) => Err(StackError::TypeMismatch),
        },
        Value::Record(record) => match register_type {
            RegisterType::Record(name) => match_local_record(stack, record, name),
            RegisterType::ExternalRecord(locator) => match_external_record(stack, record, locator),
            RegisterType::ExternalOutput(locator) => {
                if stack.contains_external_record(locator) {
                    Ok(())
                } else {
                    Err(StackError::TypeMismatch)
                }
            },
            RegisterType::Plaintext(_) => Err(StackError::TypeMismatch),
        },
    }
}

} // verus!
