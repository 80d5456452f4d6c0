//! The register file and the type matcher of a virtual machine that runs each
//! program function twice in lockstep: once on plain values and once on
//! values wired into an arithmetic circuit.
pub mod context;
pub mod error;
pub mod frame;
pub mod identifier;
pub mod laws;
pub mod literal;
pub mod lockstep;
pub mod matcher;
pub mod operand;
pub mod program;
pub mod registers;
pub mod stack;
pub mod types;
pub mod value;

pub use context::{StackMatches, StackProgram};
pub use error::StackError;
pub use frame::RegisterFile;
pub use identifier::{Identifier, Locator, ProgramID};
pub use literal::{
    Address, CircuitAddress, CircuitField, CircuitLiteral, Field, Group, Literal, LiteralType,
    Representation, Scalar,
};
pub use operand::{Operand, Register};
pub use program::{CallOperator, Closure, Function, Program};
pub use registers::{
    CallStack, Registers, RegistersCall, RegistersCaller, RegistersCallerCircuit, RegistersLoad,
    RegistersLoadCircuit, RegistersStore, RegistersStoreCircuit,
};
pub use stack::Stack;
pub use types::{
    EntryType, FinalizeTypes, PlaintextType, RecordType, RegisterType, RegisterTypes, StructType,
    ValueType,
};
pub use value::{Entry, Plaintext, Record, Value, Visibility};
