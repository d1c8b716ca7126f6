//! The syntax tree that the lowering consumes. The parser produces it; the
//! lowering only reads it.

use vstd::prelude::*;

verus! {

/// The place in the source text that a node was parsed from.
#[derive(Clone, Copy, Debug, PartialEq, Eq, Structural)]
pub struct Span {
    pub start: usize,
    pub end: usize,
}

#[derive(Clone, Debug, PartialEq, Eq)]
pub struct BoolNode {
    pub span: Span,
    pub value: bool,
}

#[derive(Clone, Debug, PartialEq, Eq)]
pub struct IntNode {
    pub span: Span,
    pub value: i64,
}

/// A floating-point literal, held as the bit pattern of its 64-bit
/// IEEE 754 value.
#[derive(Clone, Debug, PartialEq, Eq)]
pub struct FloatNode {
    pub span: Span,
    pub bits: u64,
}

#[derive(Clone, Debug, PartialEq, Eq)]
pub struct CharNode {
    pub span: Span,
    pub value: char,
}

#[derive(Clone, Debug, PartialEq, Eq)]
pub struct StringNode {
    pub span: Span,
    pub value: String,
}

#[derive(Clone, Debug, PartialEq, Eq)]
pub enum LiteralNode {
    Bool(BoolNode),
    Int(IntNode),
    Float(FloatNode),
    String(StringNode),
    Char(CharNode),
}

/// A bare reference to a variable by its name.
#[derive(Clone, Debug, PartialEq, Eq)]
pub struct SymbolNode {
    pub span: Span,
    pub value: String,
}

/// The two operands of a binary operation.
#[derive(Debug, PartialEq, Eq)]
pub struct OperationData {
    pub span: Span,
    pub left: Box<Node>,
    pub right: Box<Node>,
}

/// A binary operation, tagged by its operator.
#[derive(Debug, PartialEq, Eq)]
pub enum Operation {
    Add(OperationData),
    Subtract(OperationData),
    Multiply(OperationData),
    Divide(OperationData),
    Modulo(OperationData),
    Power(OperationData),
}

#[derive(Debug, PartialEq, Eq)]
pub struct CallArgument {
    pub span: Span,
    pub value: Node,
}

/// A call of a function by name. The name is resolved when the call is
/// lowered.
#[derive(Debug, PartialEq, Eq)]
pub struct CallNode {
    pub span: Span,
    pub func: String,
    pub args: Vec<CallArgument>,
}

#[derive(Debug, PartialEq, Eq)]
pub enum Node {
    Literal(LiteralNode),
    Operation(Operation),
    Call(CallNode),
    Symbol(SymbolNode),
}

/// A declared parameter of a function. An empty type name stands for a
/// parameter that was given no type.
#[derive(Clone, Debug, PartialEq, Eq)]
pub struct Parameter {
    pub name: String,
    pub type_: String,
}

/// What a function definition declares of its interface: the type names of
/// its parameters, in order, and the type name of its result, if any.
#[derive(Clone, Debug, PartialEq, Eq)]
pub struct FunctionSignature {
    pub name: String,
    pub args: Vec<Parameter>,
    pub ret: Option<String>,
}

impl Operation {
    /// The operands, whatever the operator.
    pub open spec fn operands(self) -> OperationData {
        match self {
            Operation::Add(d) => d,
            Operation::Subtract(d) => d,
            Operation::Multiply(d) => d,
            Operation::Divide(d) => d,
            Operation::Modulo(d) => d,
            Operation::Power(d) => d,
        }
    }

    pub fn data(&self) -> (d: &OperationData)
        ensures
            *d == self.operands(),
    {
        match self {
            Operation::Add(d) => d,
            Operation::Subtract(d) => d,
            Operation::Multiply(d) => d,
            Operation::Divide(d) => d,
            Operation::Modulo(d) => d,
            Operation::Power(d) => d,
        }
    }
}

impl Node {
    /// The name that the node refers to, where it is a bare variable
    /// reference.
    pub open spec fn symbol_name(self) -> Option<Seq<char>> {
        match self {
            Node::Symbol(s) => Some(s.value@),
            _ => None,
        }
    }

    pub fn as_symbol(&self) -> (symbol: Option<&SymbolNode>)
        ensures
            symbol matches Some(s) ==> *self == Node::Symbol(*s),
            symbol is Some <==> self is Symbol,
            symbol.is_some() ==> self.symbol_name() == Some(symbol.unwrap().value@),
    {
        match self {
            Node::Symbol(s) => Some(s),
            _ => None,
        }
    }
}

} // verus!
