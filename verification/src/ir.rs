//! The intermediate representation that lowering produces: numbered values,
//! the instructions that define them, and the handles by which a function
//! refers to what its module declares.

use vstd::prelude::*;
use crate::machine::MachineType;

verus! {

/// A value of the function being lowered: the result of the instruction with
/// this position in the function's code.
#[derive(Clone, Copy, Debug, PartialEq, Eq, Structural)]
pub struct Value(pub usize);

/// A function declared in the module, by its position among the module's
/// declarations.
#[derive(Clone, Copy, Debug, PartialEq, Eq, Structural)]
pub struct FuncId(pub usize);

/// A data object of the module, by its position among the module's data.
#[derive(Clone, Copy, Debug, PartialEq, Eq, Structural)]
pub struct DataId(pub usize);

/// A declared function as one function body sees it, by its position among
/// that body's bound functions.
#[derive(Clone, Copy, Debug, PartialEq, Eq, Structural)]
pub struct FuncRef(pub usize);

/// A data object as one function body sees it, by its position among that
/// body's bound data.
#[derive(Clone, Copy, Debug, PartialEq, Eq, Structural)]
pub struct GlobalValue(pub usize);

/// The arithmetic that a binary operation is lowered to.
#[derive(Clone, Copy, Debug, PartialEq, Eq, Structural)]
pub enum FloatOp {
    Fadd,
    Fsub,
    Fmul,
    Fdiv,
}

/// One emitted instruction. Each defines exactly one value.
#[derive(Debug, PartialEq, Eq)]
pub enum Instruction {
    /// An integer constant of the given type.
    Iconst { ty: MachineType, imm: i64 },
    /// A 64-bit floating-point constant, by its bit pattern.
    F64const { bits: u64 },
    /// Floating-point arithmetic on two earlier values.
    Binary { op: FloatOp, left: Value, right: Value },
    /// The address of a bound data object, as a value of the given type.
    GlobalValue { ty: MachineType, global: GlobalValue },
    /// A call of a bound function; the value is the call's first result.
    Call { callee: FuncRef, args: Vec<Value> },
}

/// The mathematical content of an [`Instruction`].
pub enum InstructionView {
    Iconst { ty: MachineType, imm: i64 },
    F64const { bits: u64 },
    Binary { op: FloatOp, left: Value, right: Value },
    GlobalValue { ty: MachineType, global: GlobalValue },
    Call { callee: FuncRef, args: Seq<Value> },
}

impl View for Instruction {
    type V = InstructionView;

    open spec fn view(&self) -> InstructionView {
        match *self {
            Instruction::Iconst { ty, imm } => InstructionView::Iconst { ty, imm },
            Instruction::F64const { bits } => InstructionView::F64const { bits },
            Instruction::Binary { op, left, right } => InstructionView::Binary { op, left, right },
            Instruction::GlobalValue { ty, global } => InstructionView::GlobalValue { ty, global },
            Instruction::Call { callee, args } => InstructionView::Call { callee, args: args@ },
        }
    }
}

/// The position of the last element of `names` that equals `name`.
pub open spec fn last_index_of(names: Seq<Seq<char>>, name: Seq<char>) -> Option<int>
    decreases names.len(),
{
    if names.len() == 0 {
        None
    } else if names.last() == name {
        Some(names.len() - 1)
    } else {
        last_index_of(names.drop_last(), name)
    }
}

/// What `last_index_of` finds is a position of `name`, and no later position
/// holds it; it finds nothing only where `name` does not occur.
pub proof fn lemma_last_index_of(names: Seq<Seq<char>>, name: Seq<char>)
    ensures
        match last_index_of(names, name) {
            Some(i) => 0 <= i < names.len() && names[i] == name && forall|j: int|
                i < j < names.len() ==> names[j] != name,
            None => forall|j: int| 0 <= j < names.len() ==> names[j] != name,
        },
    decreases names.len(),
{
    if names.len() != 0 && names.last() != name {
        let rest = names.drop_last();
        lemma_last_index_of(rest, name);
        assert forall|j: int| 0 <= j < rest.len() implies rest[j] == names[j] by {}
        match last_index_of(rest, name) {
            Some(i) => {
                assert forall|j: int| i < j < names.len() implies names[j] != name by {
                    if j < rest.len() {
                        assert(rest[j] != name);
                    }
                }
            },
            None => {
                assert forall|j: int| 0 <= j < names.len() implies names[j] != name by {
                    if j < rest.len() {
                        assert(rest[j] != name);
                    }
                }
            },
        }
    }
}

} // verus!
