use synthesizer::{
    Address, CallStack, CircuitAddress, CircuitField, CircuitLiteral, Entry, EntryType, Field,
    Function, Identifier, Literal, LiteralType, Locator, Operand, Plaintext, PlaintextType,
    Program, ProgramID, Record, RecordType, Register, RegisterFile, RegisterType, RegisterTypes,
    Registers, RegistersCall, RegistersCaller, RegistersCallerCircuit, RegistersLoad,
    RegistersLoadCircuit, RegistersStore, RegistersStoreCircuit, Stack, StackError, StructType,
    Value, Visibility,
};

fn id(name: &str) -> Identifier {
    Identifier::new(name)
}

fn u64_type() -> RegisterType {
    RegisterType::Plaintext(PlaintextType::Literal(LiteralType::U64))
}

/// function add: inputs r0, r1: u64; r2: u64; r3: pair; r4: token; r5: wrap.
fn stack() -> Stack {
    let program = Program {
        id: ProgramID::new("sums", "aleo"),
        structs: vec![
            StructType {
                name: id("pair"),
                members: vec![
                    (id("left"), PlaintextType::Literal(LiteralType::U64)),
                    (id("right"), PlaintextType::Literal(LiteralType::Boolean)),
                ],
            },
            StructType { name: id("wrap"), members: vec![(id("inner"), PlaintextType::Struct(id("pair")))] },
        ],
        records: vec![RecordType {
            name: id("token"),
            entries: vec![
                (
                    id("amount"),
                    EntryType {
                        visibility: Visibility::Private,
                        plaintext_type: PlaintextType::Literal(LiteralType::U64),
                    },
                ),
                (
                    id("detail"),
                    EntryType { visibility: Visibility::Public, plaintext_type: PlaintextType::Struct(id("pair")) },
                ),
            ],
        }],
        closures: vec![],
        functions: vec![Function {
            name: id("add"),
            register_types: RegisterTypes {
                inputs: vec![u64_type(), u64_type()],
                destinations: vec![
                    u64_type(),
                    RegisterType::Plaintext(PlaintextType::Struct(id("pair"))),
                    RegisterType::Record(id("token")),
                    RegisterType::Plaintext(PlaintextType::Struct(id("wrap"))),
                ],
            },
            calls: vec![],
            finalize: None,
        }],
    };
    Stack::new(program, vec![]).unwrap()
}

fn u64_value(n: u64) -> Value<Literal> {
    Value::Plaintext(Plaintext::Literal(Literal::U64(n)))
}

fn wired(kind: LiteralType, wire: u64) -> Value<CircuitLiteral> {
    Value::Plaintext(Plaintext::Literal(CircuitLiteral::Wired(kind, wire)))
}

fn pair<L>(left: L, right: L) -> Plaintext<L> {
    Plaintext::Struct(vec![(id("left"), Plaintext::Literal(left)), (id("right"), Plaintext::Literal(right))])
}

fn plain_pair() -> Plaintext<Literal> {
    pair(Literal::U64(11), Literal::Boolean(true))
}

fn token() -> Record<Literal> {
    Record {
        owner: Literal::Address(Address { high: 1, low: 2 }),
        data: vec![
            (
                id("amount"),
                Entry { visibility: Visibility::Private, plaintext: Plaintext::Literal(Literal::U64(40)) },
            ),
            (id("detail"), Entry { visibility: Visibility::Public, plaintext: plain_pair() }),
        ],
    }
}

fn call_stack() -> CallStack {
    CallStack { chain: vec![Locator::new(ProgramID::new("sums", "aleo"), id("add"))] }
}

fn registers(stack: &Stack) -> Registers {
    Registers::new(
        stack,
        call_stack(),
        &id("add"),
        vec![u64_value(3), u64_value(4)],
        vec![wired(LiteralType::U64, 100), wired(LiteralType::U64, 101)],
    )
    .unwrap()
}

fn register(locator: u64) -> Register {
    Register::Locator(locator)
}

fn at(locator: u64) -> Operand {
    Operand::Register(Register::Locator(locator))
}

fn member(locator: u64, path: &[&str]) -> Operand {
    Operand::Register(Register::Member(locator, path.iter().map(|name| id(name)).collect()))
}

#[test]
fn input_registers_hold_the_inputs_from_the_start() {
    let stack = stack();
    let registers = registers(&stack);
    assert_eq!(registers.load(&stack, &at(0)), Ok(u64_value(3)));
    assert_eq!(registers.load(&stack, &at(1)), Ok(u64_value(4)));
    assert_eq!(registers.load_circuit(&stack, &at(0)), Ok(wired(LiteralType::U64, 100)));
    assert_eq!(registers.load_circuit(&stack, &at(1)), Ok(wired(LiteralType::U64, 101)));
    assert_eq!(registers.load(&stack, &at(2)), Err(StackError::IllegalAccess));
    assert_eq!(registers.load_circuit(&stack, &at(2)), Err(StackError::IllegalAccess));
}

#[test]
fn sum_of_the_inputs_is_stored_once_and_inputs_never() {
    let stack = stack();
    let mut registers = registers(&stack);
    let r0 = match registers.load_literal(&stack, &at(0)) {
        Ok(Literal::U64(n)) => n,
        other => panic!("unexpected {:?}", other),
    };
    let r1 = match registers.load_literal(&stack, &at(1)) {
        Ok(Literal::U64(n)) => n,
        other => panic!("unexpected {:?}", other),
    };
    assert_eq!(registers.store(&stack, &register(2), u64_value(r0 + r1)), Ok(()));
    assert_eq!(registers.load(&stack, &at(2)), Ok(u64_value(7)));
    assert_eq!(registers.store(&stack, &register(2), u64_value(9)), Err(StackError::IllegalAssignment));
    assert_eq!(registers.store(&stack, &register(2), u64_value(7)), Err(StackError::IllegalAssignment));
    assert_eq!(registers.load(&stack, &at(2)), Ok(u64_value(7)));
    assert_eq!(registers.store(&stack, &register(0), u64_value(1)), Err(StackError::IllegalAssignment));
    assert_eq!(registers.load(&stack, &at(0)), Ok(u64_value(3)));
}

#[test]
fn circuit_file_refuses_second_stores_and_stores_into_inputs() {
    let stack = stack();
    let mut registers = registers(&stack);
    assert_eq!(registers.store_circuit(&stack, &register(2), wired(LiteralType::U64, 102)), Ok(()));
    assert_eq!(
        registers.store_circuit(&stack, &register(2), wired(LiteralType::U64, 103)),
        Err(StackError::IllegalAssignment)
    );
    assert_eq!(
        registers.store_circuit(&stack, &register(2), wired(LiteralType::Boolean, 103)),
        Err(StackError::IllegalAssignment)
    );
    assert_eq!(
        registers.store_circuit(&stack, &register(1), wired(LiteralType::U64, 104)),
        Err(StackError::IllegalAssignment)
    );
    assert_eq!(registers.load_circuit(&stack, &at(2)), Ok(wired(LiteralType::U64, 102)));
    assert_eq!(registers.load_circuit(&stack, &at(1)), Ok(wired(LiteralType::U64, 101)));
}

#[test]
fn second_store_fails_whatever_the_value() {
    let stack = stack();
    for second in [u64_value(0), Value::Plaintext(plain_pair()), Value::Record(token())] {
        let mut registers = registers(&stack);
        assert_eq!(registers.store(&stack, &register(3), Value::Plaintext(plain_pair())), Ok(()));
        assert_eq!(registers.store(&stack, &register(3), second), Err(StackError::IllegalAssignment));
        assert_eq!(registers.load(&stack, &at(3)), Ok(Value::Plaintext(plain_pair())));
    }
}

#[test]
fn stored_value_is_loaded_back_equal() {
    let stack = stack();
    let mut registers = registers(&stack);
    assert_eq!(registers.store(&stack, &register(3), Value::Plaintext(plain_pair())), Ok(()));
    assert_eq!(registers.store(&stack, &register(4), Value::Record(token())), Ok(()));
    assert_eq!(registers.load(&stack, &at(3)), Ok(Value::Plaintext(plain_pair())));
    assert_eq!(registers.load(&stack, &at(4)), Ok(Value::Record(token())));
    // A member register with an empty path names the whole slot.
    assert_eq!(registers.load(&stack, &member(4, &[])), Ok(Value::Record(token())));
    let circuit_pair = pair(CircuitLiteral::Wired(LiteralType::U64, 7), CircuitLiteral::Constant(Literal::Boolean(false)));
    assert_eq!(registers.store_circuit(&stack, &register(3), Value::Plaintext(circuit_pair)), Ok(()));
    let circuit_pair = pair(CircuitLiteral::Wired(LiteralType::U64, 7), CircuitLiteral::Constant(Literal::Boolean(false)));
    assert_eq!(registers.load_circuit(&stack, &at(3)), Ok(Value::Plaintext(circuit_pair)));
}

#[test]
fn stores_may_come_in_any_order_of_registers() {
    let stack = stack();
    let mut registers = registers(&stack);
    assert_eq!(registers.store(&stack, &register(4), Value::Record(token())), Ok(()));
    assert_eq!(registers.load(&stack, &at(2)), Err(StackError::IllegalAccess));
    assert_eq!(registers.store(&stack, &register(2), u64_value(1)), Ok(()));
    assert_eq!(registers.load(&stack, &at(2)), Ok(u64_value(1)));
    assert_eq!(registers.load(&stack, &at(3)), Err(StackError::IllegalAccess));
}

#[test]
fn plain_and_circuit_files_do_not_touch_each_other() {
    let stack = stack();
    let mut registers = registers(&stack);
    assert_eq!(registers.store(&stack, &register(2), u64_value(7)), Ok(()));
    assert_eq!(registers.load_circuit(&stack, &at(2)), Err(StackError::IllegalAccess));
    assert_eq!(registers.store_circuit(&stack, &register(2), wired(LiteralType::U64, 5)), Ok(()));
    assert_eq!(registers.load(&stack, &at(2)), Ok(u64_value(7)));
    assert_eq!(registers.load_circuit(&stack, &at(2)), Ok(wired(LiteralType::U64, 5)));
}

#[test]
fn store_into_a_member_is_an_illegal_assignment() {
    let stack = stack();
    let mut registers = registers(&stack);
    let target = Register::Member(3, vec![id("left")]);
    assert_eq!(registers.store(&stack, &target, u64_value(1)), Err(StackError::IllegalAssignment));
    assert_eq!(
        registers.store_circuit(&stack, &target, wired(LiteralType::U64, 1)),
        Err(StackError::IllegalAssignment)
    );
    let whole = Register::Member(3, vec![]);
    assert_eq!(
        registers.store(&stack, &whole, Value::Plaintext(plain_pair())),
        Err(StackError::IllegalAssignment)
    );
    assert_eq!(registers.load(&stack, &at(3)), Err(StackError::IllegalAccess));
}

#[test]
fn store_of_a_mismatched_value_leaves_the_register_unassigned() {
    let stack = stack();
    let mut registers = registers(&stack);
    assert_eq!(
        registers.store(&stack, &register(2), Value::Plaintext(Plaintext::Literal(Literal::U32(7)))),
        Err(StackError::TypeMismatch)
    );
    assert_eq!(registers.load(&stack, &at(2)), Err(StackError::IllegalAccess));
    assert_eq!(registers.store(&stack, &register(2), Value::Record(token())), Err(StackError::TypeMismatch));
    assert_eq!(registers.store(&stack, &register(2), u64_value(7)), Ok(()));
    assert_eq!(
        registers.store_circuit(&stack, &register(2), wired(LiteralType::U32, 1)),
        Err(StackError::TypeMismatch)
    );
    assert_eq!(registers.load_circuit(&stack, &at(2)), Err(StackError::IllegalAccess));
    assert_eq!(
        registers.store_circuit(
            &stack,
            &register(2),
            Value::Plaintext(Plaintext::Literal(CircuitLiteral::Constant(Literal::U64(1))))
        ),
        Ok(())
    );
}

#[test]
fn store_into_an_undeclared_register_is_not_found() {
    let stack = stack();
    let mut registers = registers(&stack);
    assert_eq!(registers.store(&stack, &register(6), u64_value(7)), Err(StackError::NotFound));
    assert_eq!(registers.store(&stack, &register(u64::MAX), u64_value(7)), Err(StackError::NotFound));
    assert_eq!(
        registers.store_circuit(&stack, &register(6), wired(LiteralType::U64, 1)),
        Err(StackError::NotFound)
    );
    assert_eq!(registers.load(&stack, &at(6)), Err(StackError::IllegalAccess));
}

#[test]
fn store_judged_by_a_stack_without_the_function_is_not_found() {
    let stack = stack();
    let mut registers = registers(&stack);
    let empty = Stack::new(
        Program {
            id: ProgramID::new("none", "aleo"),
            structs: vec![],
            records: vec![],
            closures: vec![],
            functions: vec![],
        },
        vec![],
    )
    .unwrap();
    assert_eq!(registers.store(&empty, &register(2), u64_value(7)), Err(StackError::NotFound));
    // Whether a register may be assigned at all is decided before the stack is asked.
    assert_eq!(registers.store(&empty, &register(0), u64_value(7)), Err(StackError::IllegalAssignment));
}

#[test]
fn literal_operand_loads_as_itself() {
    let stack = stack();
    let registers = registers(&stack);
    let operand = Operand::Literal(Literal::I16(-5));
    assert_eq!(registers.load(&stack, &operand), Ok(Value::Plaintext(Plaintext::Literal(Literal::I16(-5)))));
    assert_eq!(registers.load_literal(&stack, &operand), Ok(Literal::I16(-5)));
    assert_eq!(registers.load_plaintext(&stack, &operand), Ok(Plaintext::Literal(Literal::I16(-5))));
    assert_eq!(
        registers.load_circuit(&stack, &operand),
        Ok(Value::Plaintext(Plaintext::Literal(CircuitLiteral::Constant(Literal::I16(-5)))))
    );
    assert_eq!(
        registers.load_literal_circuit(&stack, &operand),
        Ok(CircuitLiteral::Constant(Literal::I16(-5)))
    );
}

#[test]
fn load_literal_succeeds_exactly_on_literals() {
    let stack = stack();
    let mut registers = registers(&stack);
    registers.store(&stack, &register(3), Value::Plaintext(plain_pair())).unwrap();
    registers.store(&stack, &register(4), Value::Record(token())).unwrap();
    assert_eq!(registers.load_literal(&stack, &at(0)), Ok(Literal::U64(3)));
    assert_eq!(registers.load_literal(&stack, &at(3)), Err(StackError::NarrowingFailure));
    assert_eq!(registers.load_literal(&stack, &at(4)), Err(StackError::NarrowingFailure));
    assert_eq!(registers.load_literal(&stack, &member(3, &["left"])), Ok(Literal::U64(11)));
    assert_eq!(registers.load_literal(&stack, &member(4, &["detail"])), Err(StackError::NarrowingFailure));
    assert_eq!(registers.load_literal(&stack, &at(2)), Err(StackError::IllegalAccess));
    assert_eq!(registers.load_literal(&stack, &member(3, &["middle"])), Err(StackError::NotFound));
}

#[test]
fn load_plaintext_succeeds_exactly_on_plaintexts() {
    let stack = stack();
    let mut registers = registers(&stack);
    registers.store(&stack, &register(3), Value::Plaintext(plain_pair())).unwrap();
    registers.store(&stack, &register(4), Value::Record(token())).unwrap();
    assert_eq!(registers.load_plaintext(&stack, &at(0)), Ok(Plaintext::Literal(Literal::U64(3))));
    assert_eq!(registers.load_plaintext(&stack, &at(3)), Ok(plain_pair()));
    assert_eq!(registers.load_plaintext(&stack, &at(4)), Err(StackError::NarrowingFailure));
    assert_eq!(registers.load_plaintext(&stack, &member(4, &["detail"])), Ok(plain_pair()));
    assert_eq!(registers.load_plaintext(&stack, &at(2)), Err(StackError::IllegalAccess));
    assert_eq!(registers.load_plaintext(&stack, &member(4, &["missing"])), Err(StackError::NotFound));
}

#[test]
fn circuit_narrowing_mirrors_plain_narrowing() {
    let stack = stack();
    let mut registers = registers(&stack);
    let circuit_pair = || pair(CircuitLiteral::Wired(LiteralType::U64, 7), CircuitLiteral::Wired(LiteralType::Boolean, 8));
    registers.store_circuit(&stack, &register(3), Value::Plaintext(circuit_pair())).unwrap();
    let circuit_token = Record {
        owner: CircuitLiteral::Wired(LiteralType::Address, 1),
        data: vec![
            (
                id("amount"),
                Entry {
                    visibility: Visibility::Private,
                    plaintext: Plaintext::Literal(CircuitLiteral::Wired(LiteralType::U64, 2)),
                },
            ),
            (id("detail"), Entry { visibility: Visibility::Public, plaintext: circuit_pair() }),
        ],
    };
    registers.store_circuit(&stack, &register(4), Value::Record(circuit_token)).unwrap();
    assert_eq!(registers.load_literal_circuit(&stack, &at(0)), Ok(CircuitLiteral::Wired(LiteralType::U64, 100)));
    assert_eq!(registers.load_literal_circuit(&stack, &at(3)), Err(StackError::NarrowingFailure));
    assert_eq!(registers.load_literal_circuit(&stack, &at(4)), Err(StackError::NarrowingFailure));
    assert_eq!(registers.load_literal_circuit(&stack, &at(2)), Err(StackError::IllegalAccess));
    assert_eq!(
        registers.load_literal_circuit(&stack, &member(4, &["amount"])),
        Ok(CircuitLiteral::Wired(LiteralType::U64, 2))
    );
    assert_eq!(registers.load_plaintext_circuit(&stack, &at(3)), Ok(circuit_pair()));
    assert_eq!(registers.load_plaintext_circuit(&stack, &at(4)), Err(StackError::NarrowingFailure));
    assert_eq!(registers.load_plaintext_circuit(&stack, &member(4, &["detail"])), Ok(circuit_pair()));
    assert_eq!(registers.load_plaintext_circuit(&stack, &member(4, &["nothing"])), Err(StackError::NotFound));
}

#[test]
fn member_of_a_record_that_is_absent_fails() {
    let stack = stack();
    let mut registers = registers(&stack);
    registers.store(&stack, &register(4), Value::Record(token())).unwrap();
    assert_eq!(registers.load(&stack, &member(4, &["balance"])), Err(StackError::NotFound));
    assert_eq!(registers.load(&stack, &member(4, &["owner"])), Err(StackError::NotFound));
    assert_eq!(registers.load(&stack, &member(4, &["detail", "middle"])), Err(StackError::NotFound));
    assert_eq!(registers.load(&stack, &member(4, &["amount", "left"])), Err(StackError::NotFound));
}

#[test]
fn member_paths_project_into_records_and_structs() {
    let stack = stack();
    let mut registers = registers(&stack);
    registers.store(&stack, &register(4), Value::Record(token())).unwrap();
    let wrap = Plaintext::Struct(vec![(id("inner"), plain_pair())]);
    registers.store(&stack, &register(5), Value::Plaintext(wrap)).unwrap();
    assert_eq!(registers.load(&stack, &member(4, &["amount"])), Ok(u64_value(40)));
    assert_eq!(registers.load(&stack, &member(4, &["detail"])), Ok(Value::Plaintext(plain_pair())));
    assert_eq!(
        registers.load(&stack, &member(4, &["detail", "right"])),
        Ok(Value::Plaintext(Plaintext::Literal(Literal::Boolean(true))))
    );
    assert_eq!(registers.load(&stack, &member(5, &["inner", "left"])), Ok(u64_value(11)));
    assert_eq!(registers.load(&stack, &member(5, &["inner"])), Ok(Value::Plaintext(plain_pair())));
}

#[test]
fn member_of_a_literal_or_of_an_unassigned_register_fails() {
    let stack = stack();
    let registers = registers(&stack);
    assert_eq!(registers.load(&stack, &member(0, &["left"])), Err(StackError::NotFound));
    assert_eq!(registers.load(&stack, &member(3, &["left"])), Err(StackError::IllegalAccess));
}

#[test]
fn find_follows_paths_through_values() {
    let value = Value::Record(token());
    assert_eq!(value.find(&vec![]), Ok(Value::Record(token())));
    assert_eq!(value.find(&vec![id("detail"), id("left")]), Ok(u64_value(11)));
    assert_eq!(value.find(&vec![id("left")]), Err(StackError::NotFound));
    let plaintext = plain_pair();
    assert_eq!(plaintext.find(&vec![]), Ok(plain_pair()));
    assert_eq!(plaintext.find(&vec![id("right")]), Ok(Plaintext::Literal(Literal::Boolean(true))));
    assert_eq!(plaintext.find(&vec![id("right"), id("left")]), Err(StackError::NotFound));
}

#[test]
fn first_of_two_members_with_one_name_is_found() {
    let twice = Plaintext::Struct(vec![
        (id("n"), Plaintext::Literal(Literal::U8(1))),
        (id("n"), Plaintext::Literal(Literal::U8(2))),
    ]);
    assert_eq!(twice.find(&vec![id("n")]), Ok(Plaintext::Literal(Literal::U8(1))));
}

#[test]
fn store_literal_wraps_the_literal() {
    let stack = stack();
    let mut registers = registers(&stack);
    assert_eq!(registers.store_literal(&stack, &register(2), Literal::U64(8)), Ok(()));
    assert_eq!(registers.load(&stack, &at(2)), Ok(u64_value(8)));
    assert_eq!(registers.store_literal(&stack, &register(2), Literal::U64(8)), Err(StackError::IllegalAssignment));
    assert_eq!(registers.store_literal(&stack, &register(3), Literal::U64(8)), Err(StackError::TypeMismatch));
    assert_eq!(
        registers.store_literal_circuit(&stack, &register(2), CircuitLiteral::Wired(LiteralType::U64, 9)),
        Ok(())
    );
    assert_eq!(registers.load_circuit(&stack, &at(2)), Ok(wired(LiteralType::U64, 9)));
    assert_eq!(
        registers.store_literal_circuit(&stack, &register(3), CircuitLiteral::Wired(LiteralType::U64, 9)),
        Err(StackError::TypeMismatch)
    );
}

#[test]
fn identity_is_unbound_until_it_is_set() {
    let stack = stack();
    let mut registers = registers(&stack);
    assert_eq!(registers.caller(), Err(StackError::IllegalAccess));
    assert_eq!(registers.tvk(), Err(StackError::IllegalAccess));
    assert_eq!(registers.caller_circuit(), Err(StackError::IllegalAccess));
    assert_eq!(registers.tvk_circuit(), Err(StackError::IllegalAccess));
    registers.set_caller(Address { high: 1, low: 2 });
    assert_eq!(registers.caller(), Ok(Address { high: 1, low: 2 }));
    assert_eq!(registers.tvk(), Err(StackError::IllegalAccess));
    assert_eq!(registers.caller_circuit(), Err(StackError::IllegalAccess));
    registers.set_tvk(Field { high: 3, low: 4 });
    assert_eq!(registers.tvk(), Ok(Field { high: 3, low: 4 }));
    assert_eq!(registers.tvk_circuit(), Err(StackError::IllegalAccess));
    registers.set_caller_circuit(CircuitAddress { wire: 5 });
    registers.set_tvk_circuit(CircuitField { wire: 6 });
    assert_eq!(registers.caller_circuit(), Ok(CircuitAddress { wire: 5 }));
    assert_eq!(registers.tvk_circuit(), Ok(CircuitField { wire: 6 }));
    assert_eq!(registers.caller(), Ok(Address { high: 1, low: 2 }));
    assert_eq!(registers.load(&stack, &at(0)), Ok(u64_value(3)));
}

#[test]
fn identity_setters_overwrite() {
    let stack = stack();
    let mut registers = registers(&stack);
    registers.set_caller(Address { high: 1, low: 2 });
    registers.set_caller(Address { high: 9, low: 9 });
    assert_eq!(registers.caller(), Ok(Address { high: 9, low: 9 }));
    registers.set_tvk_circuit(CircuitField { wire: 6 });
    registers.set_tvk_circuit(CircuitField { wire: 7 });
    assert_eq!(registers.tvk_circuit(), Ok(CircuitField { wire: 7 }));
}

#[test]
fn call_stack_is_handed_out_as_given() {
    let stack = stack();
    let mut registers = registers(&stack);
    assert_eq!(registers.call_stack(), call_stack());
    registers.store(&stack, &register(2), u64_value(7)).unwrap();
    registers.set_caller(Address { high: 1, low: 2 });
    assert_eq!(registers.call_stack(), call_stack());
}

#[test]
fn registers_of_an_unknown_function_are_not_opened() {
    let stack = stack();
    let opened = Registers::new(&stack, call_stack(), &id("sub"), vec![], vec![]);
    assert_eq!(opened.err(), Some(StackError::NotFound));
}

#[test]
fn registers_need_one_matching_value_for_each_input() {
    let stack = stack();
    let circuit = || vec![wired(LiteralType::U64, 100), wired(LiteralType::U64, 101)];
    let too_few = Registers::new(&stack, call_stack(), &id("add"), vec![u64_value(3)], circuit());
    assert_eq!(too_few.err(), Some(StackError::TypeMismatch));
    let too_many = Registers::new(
        &stack,
        call_stack(),
        &id("add"),
        vec![u64_value(3), u64_value(4), u64_value(5)],
        circuit(),
    );
    assert_eq!(too_many.err(), Some(StackError::TypeMismatch));
    let wrong_kind = Registers::new(
        &stack,
        call_stack(),
        &id("add"),
        vec![u64_value(3), Value::Plaintext(Plaintext::Literal(Literal::U8(4)))],
        circuit(),
    );
    assert_eq!(wrong_kind.err(), Some(StackError::TypeMismatch));
    let wrong_circuit = Registers::new(
        &stack,
        call_stack(),
        &id("add"),
        vec![u64_value(3), u64_value(4)],
        vec![wired(LiteralType::U64, 100)],
    );
    assert_eq!(wrong_circuit.err(), Some(StackError::TypeMismatch));
}

#[test]
fn register_file_works_on_its_own() {
    let stack = stack();
    let mut file: RegisterFile<Literal> =
        RegisterFile::new(&stack, &id("add"), vec![u64_value(3), u64_value(4)]).unwrap();
    assert_eq!(file.load(&at(1)), Ok(u64_value(4)));
    assert_eq!(file.store(&stack, &register(2), u64_value(7)), Ok(()));
    assert_eq!(file.store(&stack, &register(2), u64_value(7)), Err(StackError::IllegalAssignment));
    assert_eq!(file.store(&stack, &register(9), u64_value(7)), Err(StackError::NotFound));
    assert_eq!(file.store(&stack, &register(3), u64_value(7)), Err(StackError::TypeMismatch));
    assert_eq!(file.store(&stack, &register(3), Value::Plaintext(plain_pair())), Ok(()));
    assert_eq!(file.load(&at(3)), Ok(Value::Plaintext(plain_pair())));
    assert_eq!(file.load(&member(3, &["right"])), Ok(Value::Plaintext(Plaintext::Literal(Literal::Boolean(true)))));
}

#[test]
fn paired_calls_on_values_of_one_shape_have_paired_outcomes() {
    let stack = stack();
    let mut registers = registers(&stack);
    let wired_pair = || pair(CircuitLiteral::Wired(LiteralType::U64, 1), CircuitLiteral::Wired(LiteralType::Boolean, 2));
    let steps: Vec<(Register, Value<Literal>, Value<CircuitLiteral>)> = vec![
        (register(2), Value::Plaintext(plain_pair()), Value::Plaintext(wired_pair())),
        (register(2), u64_value(7), wired(LiteralType::U64, 3)),
        (register(2), u64_value(8), wired(LiteralType::U64, 4)),
        (register(0), u64_value(8), wired(LiteralType::U64, 5)),
        (register(3), Value::Plaintext(plain_pair()), Value::Plaintext(wired_pair())),
        (register(7), u64_value(8), wired(LiteralType::U64, 6)),
        (Register::Member(3, vec![id("left")]), u64_value(8), wired(LiteralType::U64, 7)),
    ];
    let expected = [
        Err(StackError::TypeMismatch),
        Ok(()),
        Err(StackError::IllegalAssignment),
        Err(StackError::IllegalAssignment),
        Ok(()),
        Err(StackError::NotFound),
        Err(StackError::IllegalAssignment),
    ];
    for ((target, plain, circuit), outcome) in steps.into_iter().zip(expected) {
        assert_eq!(registers.store(&stack, &target, plain), outcome);
        assert_eq!(registers.store_circuit(&stack, &target, circuit), outcome);
    }
    for operand in [at(0), at(2), at(3), at(4), member(3, &["right"]), member(3, &["up"]), member(2, &["left"])] {
        let plain = registers.load(&stack, &operand);
        let circuit = registers.load_circuit(&stack, &operand);
        assert_eq!(plain.as_ref().err(), circuit.as_ref().err());
        assert_eq!(plain.is_ok(), circuit.is_ok());
    }
}

#[test]
fn output_of_an_external_call_is_stored_whatever_its_layout() {
    let bank = Stack::new(
        Program {
            id: ProgramID::new("bank", "aleo"),
            structs: vec![],
            records: vec![RecordType { name: id("token"), entries: vec![] }],
            closures: vec![],
            functions: vec![],
        },
        vec![],
    )
    .unwrap();
    let bank_token = || Locator::new(ProgramID::new("bank", "aleo"), id("token"));
    let shop = Program {
        id: ProgramID::new("shop", "aleo"),
        structs: vec![],
        records: vec![],
        closures: vec![],
        functions: vec![Function {
            name: id("buy"),
            register_types: RegisterTypes {
                inputs: vec![],
                destinations: vec![
                    RegisterType::ExternalOutput(bank_token()),
                    RegisterType::ExternalRecord(bank_token()),
                    RegisterType::ExternalOutput(Locator::new(ProgramID::new("bank", "aleo"), id("coin"))),
                ],
            },
            calls: vec![],
            finalize: None,
        }],
    };
    let stack = Stack::new(shop, vec![bank]).unwrap();
    let mut registers = Registers::new(&stack, call_stack(), &id("buy"), vec![], vec![]).unwrap();
    assert_eq!(registers.store(&stack, &register(0), u64_value(1)), Err(StackError::TypeMismatch));
    assert_eq!(registers.store(&stack, &register(0), Value::Record(token())), Ok(()));
    assert_eq!(registers.load(&stack, &member(0, &["amount"])), Ok(u64_value(40)));
    // The declared layout of the record has no fields.
    assert_eq!(registers.store(&stack, &register(1), Value::Record(token())), Err(StackError::TypeMismatch));
    let blank = Record { owner: Literal::Address(Address { high: 0, low: 1 }), data: vec![] };
    assert_eq!(registers.store(&stack, &register(1), Value::Record(blank)), Ok(()));
    assert_eq!(registers.store(&stack, &register(2), Value::Record(token())), Err(StackError::TypeMismatch));
}
