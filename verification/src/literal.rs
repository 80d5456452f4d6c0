//! Scalars: the kinds of literal, the plain literals, and the literals that
//! are wired into a circuit.
use vstd::prelude::*;

verus! {

/// The kind of a literal. Two literals are of the same type exactly when
/// their kinds are equal: no kind widens into another.
#[derive(Clone, Copy, Debug, PartialEq, Eq, Structural)]
pub enum LiteralType {
    Address,
    Boolean,
    Field,
    Group,
    I8,
    I16,
    I32,
    I64,
    I128,
    U8,
    U16,
    U32,
    U64,
    U128,
    Scalar,
}

/// An account address, as the two halves of its 256-bit encoding.
#[derive(Clone, Copy, Debug, PartialEq, Eq, Structural)]
pub struct Address {
    pub high: u128,
    pub low: u128,
}

/// An element of the base field, as the two halves of its 256-bit encoding.
#[derive(Clone, Copy, Debug, PartialEq, Eq, Structural)]
pub struct Field {
    pub high: u128,
    pub low: u128,
}

/// A point of the curve group, as the two halves of its 256-bit encoding.
#[derive(Clone, Copy, Debug, PartialEq, Eq, Structural)]
pub struct Group {
    pub high: u128,
    pub low: u128,
}

/// An element of the scalar field, as the two halves of its 256-bit encoding.
#[derive(Clone, Copy, Debug, PartialEq, Eq, Structural)]
pub struct Scalar {
    pub high: u128,
    pub low: u128,
}

/// A plain literal: a scalar together with its kind.
#[derive(Clone, Copy, Debug, PartialEq, Eq, Structural)]
pub enum Literal {
    Address(Address),
    Boolean(bool),
    Field(Field),
    Group(Group),
    I8(i8),
    I16(i16),
    I32(i32),
    I64(i64),
    I128(i128),
    U8(u8),
    U16(u16),
    U32(u32),
    U64(u64),
    U128(u128),
    Scalar(Scalar),
}

impl Literal {
    /// The kind of the plain literal: the name of its variant.
    pub open spec fn literal_type(&self) -> LiteralType {
        match self {
            Literal::Address(_) => LiteralType::Address,
            Literal::Boolean(_) => LiteralType::Boolean,
            Literal::Field(_) => LiteralType::Field,
            Literal::Group(_) => LiteralType::Group,
            Literal::I8(_) => LiteralType::I8,
            Literal::I16(_) => LiteralType::I16,
            Literal::I32(_) => LiteralType::I32,
            Literal::I64(_) => LiteralType::I64,
            Literal::I128(_) => LiteralType::I128,
            Literal::U8(_) => LiteralType::U8,
            Literal::U16(_) => LiteralType::U16,
            Literal::U32(_) => LiteralType::U32,
            Literal::U64(_) => LiteralType::U64,
            Literal::U128(_) => LiteralType::U128,
            Literal::Scalar(_) => LiteralType::Scalar,
        }
    }
}

/// A literal in circuit form. A constant carries its plain value; any other
/// literal is known by its kind and by the handle of the wires that carry it
/// in the constraint system.
#[derive(Clone, Copy, Debug, PartialEq, Eq, Structural)]
pub enum CircuitLiteral {
    Constant(Literal),
    Wired(LiteralType, u64),
}

/// An address in circuit form: the handle of the wires that carry it.
#[derive(Clone, Copy, Debug, PartialEq, Eq, Structural)]
pub struct CircuitAddress {
    pub wire: u64,
}

/// A field element in circuit form: the handle of the wires that carry it.
#[derive(Clone, Copy, Debug, PartialEq, Eq, Structural)]
pub struct CircuitField {
    pub wire: u64,
}

/// What the register machine needs from a representation of literals: each
/// literal has a kind that can be read without touching the value, and each
/// plain literal can be taken into the representation as a constant.
pub trait Representation: Copy {
    /// The kind of the literal.
    spec fn kind(&self) -> LiteralType;

    /// The plain literal, taken into this representation as a constant.
    spec fn inject(literal: Literal) -> Self;

    /// A constant has the kind of the plain literal it was made from.
    proof fn lemma_inject_kind(literal: Literal)
        ensures
            Self::inject(literal).kind() == literal.literal_type(),
    ;

    /// Reads the kind of the literal.
    fn to_type(&self) -> (kind: LiteralType)
        ensures
            kind == self.kind(),
    ;

    /// Takes a plain literal into this representation as a constant.
    fn constant(literal: Literal) -> (injected: Self)
        ensures
            injected == Self::inject(literal),
    ;
}

impl Representation for Literal {
    open spec fn kind(&self) -> LiteralType {
        self.literal_type()
    }

    open spec fn inject(literal: Literal) -> Literal {
        literal
    }

    proof fn lemma_inject_kind(literal: Literal) {
    }

    fn to_type(&self) -> (kind: LiteralType) {
        match self {
            Literal::Address(_) => LiteralType::Address,
            Literal::Boolean(_) => LiteralType::Boolean,
            Literal::Field(_) => LiteralType::Field,
            Literal::Group(_) => LiteralType::Group,
            Literal::I8(_) => LiteralType::I8,
            Literal::I16(_) => LiteralType::I16,
            Literal::I32(_) => LiteralType::I32,
            Literal::I64(_) => LiteralType::I64,
            Literal::I128(_) => LiteralType::I128,
            Literal::U8(_) => LiteralType::U8,
            Literal::U16(_) => LiteralType::U16,
            Literal::U32(_) => LiteralType::U32,
            Literal::U64(_) => LiteralType::U64,
            Literal::U128(_) => LiteralType::U128,
            Literal::Scalar(_) => LiteralType::Scalar,
        }
    }

    fn constant(literal: Literal) -> (injected: Literal) {
        literal
    }
}

impl Representation for CircuitLiteral {
    open spec fn kind(&self) -> LiteralType {
        match self {
            CircuitLiteral::Constant(literal) => literal.kind(),
            CircuitLiteral::Wired(kind, _) => *kind,
        }
    }

    open spec fn inject(literal: Literal) -> CircuitLiteral {
        CircuitLiteral::Constant(literal)
    }

    proof fn lemma_inject_kind(literal: Literal) {
    }

    fn to_type(&self) -> (kind: LiteralType) {
        match self {
            CircuitLiteral::Constant(literal) => literal.to_type(),
            CircuitLiteral::Wired(kind, _) => *kind,
        }
    }

    fn constant(literal: Literal) -> (injected: CircuitLiteral) {
        CircuitLiteral::Constant(literal)
    }
}

} // verus!
