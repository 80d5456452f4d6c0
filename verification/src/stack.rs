//! The call stack of one program: its declarations, the stacks of the
//! programs it imports, and the call counts worked out when it is built.
use vstd::prelude::*;

use crate::context::{StackMatches, StackProgram};
use crate::error::StackError;
use crate::identifier::{
    find_named, first_index, first_index_from, names_of, Identifier, Locator, Name, ProgramID,
    ProgramName,
};
use crate::literal::Literal;
use crate::matcher::{
    match_local_record, match_plaintext, match_register_type, match_value_type,
};
use crate::program::{CallOperator, Function, Program};
use crate::types::{
    FinalizeTypes, PlaintextType, RecordType, RegisterType, RegisterTypes, ValueType,
};
use crate::value::{Plaintext, Record, Value};

verus! {

/// The stack of a program. It is built once from the program and the stacks
/// of its imports, and only read afterwards.
#[derive(Debug)]
pub struct Stack {
    program: Program,
    externals: Vec<Stack>,
    call_counts: Vec<usize>,
}

/// The number of closures and functions of the program. Counted together,
/// the closures come first and the functions after them, each sort in its
/// declared order.
pub open spec fn callables(program: Program) -> nat {
    program.closures@.len() + program.functions@.len()
}

/// The call targets of the `k`-th closure or function of the program.
pub open spec fn callable_calls(program: Program, k: int) -> Seq<CallOperator> {
    if 0 <= k < program.closures@.len() {
        program.closures@[k].calls@
    } else if program.closures@.len() <= k < callables(program) {
        program.functions@[k - program.closures@.len()].calls@
    } else {
        Seq::empty()
    }
}

/// Which closure or function of the program a call by `name` runs: the
/// closure of that name, else the function of that name.
pub open spec fn local_target(program: Program, name: Name) -> Option<int> {
    match first_index(names_of(program.closures@), name) {
        Some(i) => Some(i),
        None => match first_index(names_of(program.functions@), name) {
            Some(i) => Some(program.closures@.len() + i),
            None => None,
        },
    }
}

/// The identifiers of the programs of the stacks, in their order.
pub open spec fn program_ids(stacks: Seq<Stack>) -> Seq<ProgramName> {
    Seq::new(stacks.len(), |i: int| stacks[i].declared().id@)
}

/// The number of call instructions that the target of `call` reaches, where
/// the `k`-th closure or function makes the call. A target in the program
/// itself is followed only if it is declared before the caller; a target in
/// another program only if that program was imported and declares that
/// function.
pub open spec fn nested_reach(
    program: Program,
    externals: Seq<Stack>,
    k: int,
    call: CallOperator,
) -> nat
    decreases externals, k, 0int,
{
    match call {
        CallOperator::Resource(name) => match local_target(program, name@) {
            Some(j) => if 0 <= j < k {
                reach(program, externals, j, callable_calls(program, j).len() as int)
            } else {
                0
            },
            None => 0,
        },
        CallOperator::Locator(locator) => match first_index(
            program_ids(externals),
            locator.program_id@,
        ) {
            Some(e) => if 0 <= e < externals.len() {
                let external = externals[e];
                match first_index(
                    names_of(external.declared().functions@),
                    locator.resource@,
                ) {
                    Some(f) => if 0 <= f < external.declared().functions@.len() {
                        reach(
                            external.declared(),
                            external.imported(),
                            external.declared().closures@.len() + f,
                            external.declared().functions@[f].calls@.len() as int,
                        )
                    } else {
                        0
                    },
                    None => 0,
                }
            } else {
                0
            },
            None => 0,
        },
    }
}

/// The number of call instructions that running the first `n` call
/// instructions of the `k`-th closure or function reaches: each of them
/// counts as one, and with it count those that its target reaches in turn.
pub open spec fn reach(program: Program, externals: Seq<Stack>, k: int, n: int) -> nat
    decreases externals, k, n,
{
    let calls = callable_calls(program, k);
    if k < 0 || n <= 0 || n > calls.len() {
        0
    } else {
        reach(program, externals, k, n - 1) + 1 + nested_reach(program, externals, k, calls[n - 1])
    }
}

/// The number of call instructions that running the `k`-th closure or
/// function reaches.
pub open spec fn reach_all(program: Program, externals: Seq<Stack>, k: int) -> nat {
    reach(program, externals, k, callable_calls(program, k).len() as int)
}

/// Whether a stack can be built: the closures and functions can be counted,
/// and so can the call instructions that each of them reaches.
pub open spec fn admissible(program: Program, externals: Seq<Stack>) -> bool {
    &&& callables(program) <= usize::MAX
    &&& forall|k: int|
        0 <= k < callables(program) ==> #[trigger] reach_all(program, externals, k) <= usize::MAX
}

/// Running more call instructions reaches no fewer.
pub proof fn lemma_reach_grows(program: Program, externals: Seq<Stack>, k: int, n: int, m: int)
    requires
        0 <= n <= m <= callable_calls(program, k).len(),
    ensures
        reach(program, externals, k, n) <= reach(program, externals, k, m),
    decreases m - n,
{
    if n < m {
        lemma_reach_grows(program, externals, k, n, m - 1);
    }
}

impl Stack {
    /// The program of the stack.
    pub closed spec fn declared(&self) -> Program {
        self.program
    }

    /// The stacks of the imported programs, in the order they were given.
    pub closed spec fn imported(&self) -> Seq<Stack> {
        self.externals@
    }

    /// Finds the first of the stacks whose program goes by `program_id`.
    fn find_external(externals: &Vec<Stack>, program_id: &ProgramID) -> (found: Option<usize>)
        ensures
            match found {
                Some(e) => first_index(program_ids(externals@), program_id@) == Some(e as int)
                    && e < externals.len(),
                None => first_index(program_ids(externals@), program_id@) is None,
            },
    {
        let ghost ids = program_ids(externals@);
        let mut i: usize = 0;
        while i < externals.len()
            invariant
                i <= externals.len(),
                ids == program_ids(externals@),
                first_index(ids, program_id@) == first_index_from(ids, program_id@, i as int),
            decreases externals.len() - i,
        {
            if externals[i].program.id.same_as(program_id) {
                return Some(i);
            }
            i = i + 1;
        }
        None
    }

    /// Finds which closure or function of the program a call by `name` runs.
    fn resolve_local(program: &Program, name: &Identifier) -> (target: Option<usize>)
        requires
            callables(*program) <= usize::MAX,
        ensures
            match target {
                Some(j) => local_target(*program, name@) == Some(j as int) && j < callables(
                    *program,
                ),
                None => local_target(*program, name@) is None,
            },
    {
        match find_named(&program.closures, name) {
            Some(i) => Some(i),
            None => match find_named(&program.functions, name) {
                Some(i) => Some(program.closures.len() + i),
                None => None,
            },
        }
    }

    /// Counts the call instructions that the target of `call` reaches, where
    /// the `k`-th closure or function makes the call and `table` holds the
    /// counts of those declared before it.
    fn count_nested(
        program: &Program,
        externals: &Vec<Stack>,
        table: &Vec<usize>,
        k: usize,
        call: &CallOperator,
    ) -> (nested: usize)
        requires
            callables(*program) <= usize::MAX,
            table@.len() == k,
            forall|j: int| 0 <= j < k ==> #[trigger] table@[j] == reach_all(*program, externals@, j),
        ensures
            nested == nested_reach(*program, externals@, k as int, *call),
    {
        match call {
            CallOperator::Resource(name) => match Self::resolve_local(program, name) {
                Some(j) => {
                    if j < k {
                        table[j]
                    } else {
                        0
                    }
                },
                None => 0,
            },
            CallOperator::Locator(locator) => match Self::find_external(
                externals,
                &locator.program_id,
            ) {
                Some(e) => {
                    let external = &externals[e];
                    match find_named(&external.program.functions, &locator.resource) {
                        Some(f) => {
                            proof {
                                use_type_invariant(external);
                                assert(external.call_counts@.len() == external.call_counts.len());
                            }
                            external.call_counts[external.program.closures.len() + f]
                        },
                        None => 0,
                    }
                },
                None => 0,
            },
        }
    }

    /// Counts the call instructions that running the `k`-th closure or
    /// function reaches, where `table` holds the counts of those declared
    /// before it. There is no count where it does not fit the machine word.
    fn count_reach(program: &Program, externals: &Vec<Stack>, table: &Vec<usize>, k: usize) -> (count:
        Option<usize>)
        requires
            callables(*program) <= usize::MAX,
            k < callables(*program),
            table@.len() == k,
            forall|j: int| 0 <= j < k ==> #[trigger] table@[j] == reach_all(*program, externals@, j),
        ensures
            match count {
                Some(reached) => reached == reach_all(*program, externals@, k as int),
                None => reach_all(*program, externals@, k as int) > usize::MAX,
            },
    {
        let calls: &Vec<CallOperator> = if k < program.closures.len() {
            &program.closures[k].calls
        } else {
            &program.functions[k - program.closures.len()].calls
        };
        let mut sum: usize = 0;
        let mut n: usize = 0;
        while n < calls.len()
            invariant
                n <= calls.len(),
                calls@ == callable_calls(*program, k as int),
                callables(*program) <= usize::MAX,
                table@.len() == k,
                forall|j: int|
                    0 <= j < k ==> #[trigger] table@[j] == reach_all(*program, externals@, j),
                sum == reach(*program, externals@, k as int, n as int),
            decreases calls.len() - n,
        {
            let nested = Self::count_nested(program, externals, table, k, &calls[n]);
            proof {
                lemma_reach_grows(
                    *program,
                    externals@,
                    k as int,
                    n as int + 1,
                    calls@.len() as int,
                );
            }
            let counted = match sum.checked_add(1) {
                Some(counted) => counted,
                None => {
                    return None;
                },
            };
            sum = match counted.checked_add(nested) {
                Some(with_nested) => with_nested,
                None => {
                    return None;
                },
            };
            n = n + 1;
        }
        Some(sum)
    }

    /// Builds the stack of `program` over the stacks of the programs it
    /// imports, and works out the call counts of its closures and functions.
    /// There is no stack exactly when one of these counts does not fit the
    /// machine word.
    pub fn new(program: Program, externals: Vec<Stack>) -> (built: Option<Stack>)
        ensures
            match built {
                Some(stack) => {
                    &&& admissible(program, externals@)
                    &&& stack.declared() == program
                    &&& stack.imported() == externals@
                },
                None => !admissible(program, externals@),
            },
    {
        let total = match program.closures.len().checked_add(program.functions.len()) {
            Some(total) => total,
            None => {
                return None;
            },
        };
        let mut table: Vec<usize> = Vec::new();
        let mut k: usize = 0;
        while k < total
            invariant
                k <= total,
                total == callables(program),
                table@.len() == k,
                forall|j: int|
                    0 <= j < k ==> #[trigger] table@[j] == reach_all(program, externals@, j),
            decreases total - k,
        {
            match Self::count_reach(&program, &externals, &table, k) {
                Some(reached) => {
                    table.push(reached);
                },
                None => {
                    return None;
                },
            }
            k = k + 1;
        }
        assert forall|j: int| 0 <= j < callables(program) implies #[trigger] reach_all(
            program,
            externals@,
            j,
        ) <= usize::MAX by {
            assert(table@[j] == reach_all(program, externals@, j));
        }
        Some(Stack { program, externals, call_counts: table })
    }

    #[verifier::type_invariant]
    spec fn well_formed(&self) -> bool {
        &&& self.call_counts@.len() == callables(self.program)
        &&& forall|k: int|
            0 <= k < self.call_counts@.len() ==> #[trigger] self.call_counts@[k] == reach_all(
                self.program,
                self.externals@,
                k,
            )
    }
}

impl StackProgram for Stack {
    open spec fn program_spec(&self) -> Program {
        self.declared()
    }

    open spec fn external_spec(&self, program_id: ProgramName) -> Option<Stack> {
        match first_index(program_ids(self.imported()), program_id) {
            Some(e) => Some(self.imported()[e]),
            None => None,
        }
    }

    open spec fn number_of_calls_spec(&self, function_name: Name) -> nat {
        match first_index(names_of(self.declared().functions@), function_name) {
            Some(f) => reach_all(
                self.declared(),
                self.imported(),
                self.declared().closures@.len() + f,
            ),
            None => 0,
        }
    }

    fn program(&self) -> (program: &Program) {
        &self.program
    }

    fn program_id(&self) -> (id: &ProgramID) {
        &self.program.id
    }

    fn contains_external_record(&self, locator: &Locator) -> (contained: bool) {
        self.get_external_record(locator).is_ok()
    }

    fn get_external_stack(&self, program_id: &ProgramID) -> (found: Result<&Stack, StackError>) {
        match Self::find_external(&self.externals, program_id) {
            Some(e) => Ok(&self.externals[e]),
            None => Err(StackError::NotFound),
        }
    }

    fn get_external_program(&self, program_id: &ProgramID) -> (found: Result<
        &Program,
        StackError,
    >) {
        match self.get_external_stack(program_id) {
            Ok(external) => Ok(&external.program),
            Err(error) => Err(error),
        }
    }

    fn get_external_record(&self, locator: &Locator) -> (found: Result<&RecordType, StackError>) {
        match self.get_external_stack(&locator.program_id) {
            Ok(external) => external.program.get_record(&locator.resource),
            Err(error) => Err(error),
        }
    }

    fn get_function(&self, function_name: &Identifier) -> (found: Result<&Function, StackError>) {
        self.program.get_function(function_name)
    }

    fn get_number_of_calls(&self, function_name: &Identifier) -> (found: Result<
        usize,
        StackError,
    >) {
        match find_named(&self.program.functions, function_name) {
            Some(f) => {
                proof {
                    use_type_invariant(self);
                    assert(self.call_counts@.len() == self.call_counts.len());
                }
                Ok(self.call_counts[self.program.closures.len() + f])
            },
            None => Err(StackError::NotFound),
        }
    }

    fn get_register_types(&self, name: &Identifier) -> (found: Result<
        &RegisterTypes,
        StackError,
    >) {
        self.program.get_register_types(name)
    }

    fn get_finalize_types(&self, name: &Identifier) -> (found: Result<
        &FinalizeTypes,
        StackError,
    >) {
        self.program.get_finalize_types(name)
    }
}

impl StackMatches for Stack {
    fn matches_value_type(&self, value: &Value<Literal>, value_type: &ValueType) -> (checked:
        Result<(), StackError>) {
        match_value_type(self, value, value_type)
    }

    fn matches_register_type(
        &self,
        stack_value: &Value<Literal>,
        register_type: &RegisterType,
    ) -> (checked: Result<(), StackError>) {
        match_register_type(self, stack_value, register_type)
    }

    fn matches_external_record(&self, record: &Record<Literal>, locator: &Locator) -> (checked:
        Result<(), StackError>) {
        match self.get_external_stack(&locator.program_id) {
            Ok(external) => external.matches_record(record, &locator.resource),
            Err(_) => Err(StackError::TypeMismatch),
        }
    }

    fn matches_record(&self, record: &Record<Literal>, record_name: &Identifier) -> (checked:
        Result<(), StackError>) {
        match_local_record(self, record, record_name)
    }

    fn matches_plaintext(&self, plaintext: &Plaintext<Literal>, plaintext_type: &PlaintextType) -> (checked:
        Result<(), StackError>) {
        match_plaintext(&self.program, plaintext, plaintext_type)
    }
}

} // verus!
