//! What lowering means: for each kind of node, the module and the function
//! that result from lowering it, and the value or the failure that comes
//! back. The executable lowering is proved to compute exactly this.

use vstd::prelude::*;
use crate::ast::{CallNode, LiteralNode, Node, Operation};
use crate::backend::{placeholder, pointer_name, Backend};
use crate::context::{FunctionView, ModuleView};
use crate::error::LowerFailure;
use crate::ir::{FloatOp, InstructionView, Value};
use crate::machine::{Linkage, MachineType, SigView};

verus! {

/// The outcome of lowering a node.
pub struct Lowered {
    pub module: ModuleView,
    pub function: FunctionView,
    pub result: Result<Value, LowerFailure>,
}

/// The outcome of lowering some of the arguments of a call.
pub struct LoweredArgs {
    pub module: ModuleView,
    pub function: FunctionView,
    pub result: Result<Seq<Value>, LowerFailure>,
}

/// The number that an integer constant holds for a boolean.
pub open spec fn bool_immediate(value: bool) -> i64 {
    if value {
        1
    } else {
        0
    }
}

/// The constant that a literal other than a string is lowered to. It depends
/// on the kind and the value of the literal, not on where it stands.
pub open spec fn literal_constant(literal: LiteralNode) -> Option<InstructionView> {
    match literal {
        LiteralNode::Bool(b) => Some(
            InstructionView::Iconst { ty: MachineType::I1, imm: bool_immediate(b.value) },
        ),
        LiteralNode::Int(i) => Some(InstructionView::Iconst { ty: MachineType::I32, imm: i.value }),
        LiteralNode::Float(f) => Some(InstructionView::F64const { bits: f.bits }),
        LiteralNode::Char(c) => Some(
            InstructionView::Iconst { ty: MachineType::I32, imm: c.value as u32 as i64 },
        ),
        LiteralNode::String(_) => None,
    }
}

/// Emitting one instruction: the function grows by it, the module stays,
/// and the value is the one that the instruction defines.
pub open spec fn emitted(m: ModuleView, f: FunctionView, instruction: InstructionView) -> Lowered {
    Lowered { module: m, function: f.emit(instruction), result: Ok(f.next_value()) }
}

/// Lowering a string literal: the module defines a data object for it, the
/// function binds that object and takes its address as a pointer. Where the
/// object cannot be defined, nothing changes.
pub open spec fn lower_string(m: ModuleView, f: FunctionView, text: Seq<char>) -> Lowered {
    let defined = m.define_string(text);
    match defined.result {
        Err(e) => Lowered { module: m, function: f, result: Err(e) },
        Ok(id) => emitted(
            defined.module,
            f.bind_data(id),
            InstructionView::GlobalValue { ty: m.pointer, global: f.next_global() },
        ),
    }
}

/// Lowering a literal.
pub open spec fn lower_literal(m: ModuleView, f: FunctionView, literal: LiteralNode) -> Lowered {
    match literal {
        LiteralNode::String(s) => lower_string(m, f, s.value@),
        _ => emitted(m, f, literal_constant(literal).unwrap()),
    }
}

/// The arithmetic that an operator is lowered to, for the four operators
/// that have a lowering rule.
pub open spec fn float_op(operation: Operation) -> Option<FloatOp> {
    match operation {
        Operation::Add(_) => Some(FloatOp::Fadd),
        Operation::Subtract(_) => Some(FloatOp::Fsub),
        Operation::Multiply(_) => Some(FloatOp::Fmul),
        Operation::Divide(_) => Some(FloatOp::Fdiv),
        _ => None,
    }
}

/// Lowering a reference to a variable: its current value, with nothing
/// emitted.
pub open spec fn lower_symbol(m: ModuleView, f: FunctionView, name: Seq<char>) -> Lowered {
    match f.variable_index(name) {
        Some(i) => Lowered { module: m, function: f, result: Ok(f.vars[i].value) },
        None => Lowered { module: m, function: f, result: Err(LowerFailure::UnknownSymbol(name)) },
    }
}

/// The type name assumed for the parameter that takes `argument` in a call
/// of a function that the unit does not define: the recorded type of the
/// variable, where the argument is a bare reference to a variable that has
/// one, and `ptr` otherwise.
pub open spec fn inferred_type_name(f: FunctionView, argument: Node) -> Seq<char> {
    match argument.symbol_name() {
        Some(name) => match f.variable_index(name) {
            Some(i) => match f.vars[i].type_ {
                Some(t) => t@,
                None => pointer_name(),
            },
            None => pointer_name(),
        },
        None => pointer_name(),
    }
}

/// The name of the declared result type of a function, or the placeholder
/// where it declares none.
pub open spec fn return_type_name(ret: Option<String>) -> Seq<char> {
    match ret {
        Some(t) => t@,
        None => placeholder(),
    }
}

/// The signature that a call is made with. For a function that the unit
/// defines: its declared parameter types, each resolved with the pointer
/// type substituted, and its declared result type, resolved without. For any
/// other name: one parameter for each argument, of the type inferred from
/// the argument, and a 32-bit integer result.
pub open spec fn call_signature<B: Backend>(
    m: ModuleView,
    f: FunctionView,
    call: CallNode,
) -> SigView {
    match m.function_index(call.func@) {
        Some(i) => SigView {
            params: Seq::new(
                m.functions[i].args@.len(),
                |k: int| B::type_of(m.functions[i].args@[k].type_@, m.pointer, true),
            ),
            returns: seq![B::type_of(return_type_name(m.functions[i].ret), m.pointer, false)],
        },
        None => SigView {
            params: Seq::new(
                call.args@.len(),
                |k: int| B::type_of(inferred_type_name(f, call.args@[k].value), m.pointer, false),
            ),
            returns: seq![MachineType::I32],
        },
    }
}

/// Lowering a node of any kind.
pub open spec fn lower<B: Backend>(m: ModuleView, f: FunctionView, node: Node) -> Lowered
    decreases node, 0nat,
{
    match node {
        Node::Literal(literal) => lower_literal(m, f, literal),
        Node::Operation(operation) => lower_operation::<B>(m, f, operation),
        Node::Call(call) => lower_call::<B>(m, f, call),
        Node::Symbol(symbol) => lower_symbol(m, f, symbol.value@),
    }
}

/// Lowering a binary operation: the left operand, then the right one, then
/// the arithmetic on the two values. The first failure ends it; an operator
/// without a lowering rule fails once both operands are lowered.
pub open spec fn lower_operation<B: Backend>(
    m: ModuleView,
    f: FunctionView,
    operation: Operation,
) -> Lowered
    decreases operation, 0nat,
{
    let left = lower::<B>(m, f, *operation.operands().left);
    match left.result {
        Err(_) => left,
        Ok(l) => {
            let right = lower::<B>(left.module, left.function, *operation.operands().right);
            match right.result {
                Err(_) => right,
                Ok(r) => match float_op(operation) {
                    Some(op) => emitted(
                        right.module,
                        right.function,
                        InstructionView::Binary { op, left: l, right: r },
                    ),
                    None => Lowered {
                        module: right.module,
                        function: right.function,
                        result: Err(LowerFailure::UnsupportedOperation),
                    },
                },
            }
        },
    }
}

/// Lowering the first `count` arguments of a call, from left to right.
pub open spec fn lower_arguments<B: Backend>(
    m: ModuleView,
    f: FunctionView,
    call: CallNode,
    count: nat,
) -> LoweredArgs
    decreases call, count,
{
    if count == 0 || count > call.args@.len() {
        LoweredArgs { module: m, function: f, result: Ok(Seq::empty()) }
    } else {
        let before = lower_arguments::<B>(m, f, call, (count - 1) as nat);
        match before.result {
            Err(_) => before,
            Ok(values) => {
                let this = lower::<B>(
                    before.module,
                    before.function,
                    call.args@[count - 1].value,
                );
                match this.result {
                    Err(e) => LoweredArgs {
                        module: this.module,
                        function: this.function,
                        result: Err(e),
                    },
                    Ok(v) => LoweredArgs {
                        module: this.module,
                        function: this.function,
                        result: Ok(values.push(v)),
                    },
                }
            },
        }
    }
}

/// Lowering a call: the callee is declared as an import with the signature
/// of the call and bound into the function, the arguments are lowered from
/// left to right, and the call is emitted. The value is the first result of
/// the call. Where the declaration is refused, nothing changes.
pub open spec fn lower_call<B: Backend>(m: ModuleView, f: FunctionView, call: CallNode) -> Lowered
    decreases call, call.args@.len() + 1,
{
    let declared = m.declare_function(
        call.func@,
        Linkage::Import,
        call_signature::<B>(m, f, call),
    );
    match declared.result {
        Err(e) => Lowered { module: m, function: f, result: Err(e) },
        Ok(id) => {
            let arguments = lower_arguments::<B>(
                declared.module,
                f.bind_function(id),
                call,
                call.args@.len(),
            );
            match arguments.result {
                Err(e) => Lowered {
                    module: arguments.module,
                    function: arguments.function,
                    result: Err(e),
                },
                Ok(values) => emitted(
                    arguments.module,
                    arguments.function,
                    InstructionView::Call { callee: f.next_func_ref(), args: values },
                ),
            }
        },
    }
}

} // verus!
