//! What holds of every lowering, whatever the tree, the module and the
//! function it starts from.

use vstd::prelude::*;
use crate::ast::{CallNode, LiteralNode, Operation};
use crate::backend::{placeholder, Backend};
use crate::context::{literal_bytes, FunctionView, ModuleView};
use crate::error::LowerFailure;
use crate::invariants::{lemma_arguments_extend, lemma_declare_function_extends};
use crate::ir::{lemma_last_index_of, DataId, GlobalValue, InstructionView, Value};
use crate::lowering::{
    call_signature, float_op, literal_constant, lower, lower_arguments, lower_call,
    lower_literal, lower_operation, lower_string,
};
use crate::machine::{Linkage, MachineType};

verus! {

/// Whether two literals are of one kind and hold one value, wherever they
/// stand in the source.
pub open spec fn same_literal(a: LiteralNode, b: LiteralNode) -> bool {
    match (a, b) {
        (LiteralNode::Bool(x), LiteralNode::Bool(y)) => x.value == y.value,
        (LiteralNode::Int(x), LiteralNode::Int(y)) => x.value == y.value,
        (LiteralNode::Float(x), LiteralNode::Float(y)) => x.bits == y.bits,
        (LiteralNode::Char(x), LiteralNode::Char(y)) => x.value == y.value,
        (LiteralNode::String(x), LiteralNode::String(y)) => x.value@ == y.value@,
        _ => false,
    }
}

/// Two literals of one kind and value, other than strings, are lowered to
/// equal constants, in whatever module and function each is lowered: both
/// lowerings succeed, each emits one instruction, the two instructions are
/// equal, and the module is left as it was.
pub proof fn lemma_equal_literals_give_equal_constants(
    a: LiteralNode,
    b: LiteralNode,
    m1: ModuleView,
    f1: FunctionView,
    m2: ModuleView,
    f2: FunctionView,
)
    requires
        same_literal(a, b),
        !(a is String),
    ensures
        literal_constant(a) is Some,
        literal_constant(a) == literal_constant(b),
        lower_literal(m1, f1, a).result is Ok,
        lower_literal(m2, f2, b).result is Ok,
        lower_literal(m1, f1, a).function.code == f1.code.push(literal_constant(a).unwrap()),
        lower_literal(m2, f2, b).function.code == f2.code.push(literal_constant(a).unwrap()),
        lower_literal(m1, f1, a).module == m1,
        lower_literal(m2, f2, b).module == m2,
{
}

/// Two string literals lowered one after the other in one module, both with
/// success and into states that fit in memory, do not share their storage, whether or not their contents are
/// equal: the module gains two data objects with different names and
/// different ids, each exported, read-only and holding the bytes of its
/// literal with a terminating zero; the objects that were there stay; and
/// the two values are different addresses.
pub proof fn lemma_string_literals_are_not_shared(
    m: ModuleView,
    f: FunctionView,
    a: Seq<char>,
    b: Seq<char>,
)
    requires
        lower_string(m, f, a).result is Ok,
        lower_string(lower_string(m, f, a).module, lower_string(m, f, a).function, b).result is Ok,
        lower_string(
            lower_string(m, f, a).module,
            lower_string(m, f, a).function,
            b,
        ).module.representable(),
        lower_string(
            lower_string(m, f, a).module,
            lower_string(m, f, a).function,
            b,
        ).function.representable(),
    ensures
        ({
            let first = lower_string(m, f, a);
            let second = lower_string(first.module, first.function, b);
            let n = m.data.len() as int;
            &&& second.module.data.len() == n + 2
            &&& second.module.data.subrange(0, n) == m.data
            &&& second.module.data[n].name != second.module.data[n + 1].name
            &&& second.module.data[n].contents == literal_bytes(a)
            &&& second.module.data[n + 1].contents == literal_bytes(b)
            &&& second.module.data[n].linkage == Linkage::Export
            &&& second.module.data[n + 1].linkage == Linkage::Export
            &&& !second.module.data[n].writable
            &&& !second.module.data[n + 1].writable
            &&& second.module.data_desc.len() == 0
            &&& first.result != second.result
            &&& second.function.globals == f.globals.push(DataId(n as usize)).push(
                DataId((n + 1) as usize),
            )
            &&& second.function.code == f.code.push(
                InstructionView::GlobalValue { ty: m.pointer, global: f.next_global() },
            ).push(
                InstructionView::GlobalValue {
                    ty: m.pointer,
                    global: GlobalValue((f.globals.len() + 1) as usize),
                },
            )
        }),
{
    let first = lower_string(m, f, a);
    let second = lower_string(first.module, first.function, b);
    let n = m.data.len() as int;
    let m1 = first.module;
    assert(m1.data == m.data.push(m1.data[n]));
    let name2 = crate::context::literal_name(m1.data.len());
    lemma_last_index_of(m1.data_names(), name2);
    assert(m1.data_names()[n] == m1.data[n].name);
    assert(second.module.data.subrange(0, n) =~= m.data);
}

/// The signature of a call of a function that the unit defines has one
/// parameter for each declared parameter, of the machine type that the
/// declared type name resolves to with the pointer type substituted: a
/// parameter without a declared type is given the pointer type. It has one
/// result.
pub proof fn lemma_local_call_signature<B: Backend>(
    m: ModuleView,
    f: FunctionView,
    call: CallNode,
    found: int,
)
    requires
        m.function_index(call.func@) == Some(found),
    ensures
        ({
            let sig = call_signature::<B>(m, f, call);
            let declared = m.functions[found];
            &&& 0 <= found < m.functions.len()
            &&& declared.name@ == call.func@
            &&& sig.params.len() == declared.args@.len()
            &&& forall|k: int|
                0 <= k < declared.args@.len() ==> #[trigger] sig.params[k] == B::type_of(
                    declared.args@[k].type_@,
                    m.pointer,
                    true,
                )
            &&& forall|k: int|
                0 <= k < declared.args@.len() && declared.args@[k].type_@ == placeholder()
                    ==> #[trigger] sig.params[k] == m.pointer
            &&& sig.returns.len() == 1
        }),
{
    lemma_last_index_of(m.function_names(), call.func@);
    let sig = call_signature::<B>(m, f, call);
    let declared = m.functions[found];
    assert forall|k: int|
        0 <= k < declared.args@.len() && declared.args@[k].type_@
            == placeholder() implies #[trigger] sig.params[k] == m.pointer by {
        B::placeholder_resolves(m.pointer);
    }
}

/// The signature of a call of a name that the unit does not define has one
/// parameter for each argument and a 32-bit integer result. Where the
/// argument is a bare reference to a variable with a recorded type, the
/// parameter has the machine type that the recorded type name resolves to.
/// Where it is a reference to a variable without a recorded type, or to no
/// variable, or any other expression, the parameter has the pointer type.
pub proof fn lemma_import_call_signature<B: Backend>(
    m: ModuleView,
    f: FunctionView,
    call: CallNode,
    k: int,
)
    requires
        m.function_index(call.func@) is None,
        0 <= k < call.args@.len(),
    ensures
        ({
            let sig = call_signature::<B>(m, f, call);
            let argument = call.args@[k].value;
            &&& sig.params.len() == call.args@.len()
            &&& sig.returns == seq![MachineType::I32]
            &&& match argument.symbol_name() {
                Some(name) => match f.variable_index(name) {
                    Some(i) => match f.vars[i].type_ {
                        Some(t) => sig.params[k] == B::type_of(t@, m.pointer, false),
                        None => sig.params[k] == m.pointer,
                    },
                    None => sig.params[k] == m.pointer,
                },
                None => sig.params[k] == m.pointer,
            }
        }),
{
    B::pointer_name_resolves(m.pointer, false);
}

/// The four operators with a lowering rule are addition, subtraction,
/// multiplication and division. Lowering an operation with one of them
/// succeeds wherever both operands can be lowered, and emits the
/// floating-point arithmetic of the operator on the two operand values,
/// after everything that the operands emit. Lowering an operation with any
/// other operator fails.
pub proof fn lemma_operation_lowering<B: Backend>(
    m: ModuleView,
    f: FunctionView,
    operation: Operation,
)
    ensures
        float_op(operation) is Some <==> (operation is Add || operation is Subtract
            || operation is Multiply || operation is Divide),
        float_op(operation) is None ==> lower_operation::<B>(m, f, operation).result is Err,
        ({
            let left = lower::<B>(m, f, *operation.operands().left);
            let right = lower::<B>(left.module, left.function, *operation.operands().right);
            let whole = lower_operation::<B>(m, f, operation);
            &&& left.result is Err ==> whole == left
            &&& left.result is Ok && right.result is Err ==> whole == right
            &&& left.result is Ok && right.result is Ok && float_op(operation) is None
                ==> whole.result == Err::<Value, LowerFailure>(
                LowerFailure::UnsupportedOperation,
            )
            &&& left.result is Ok && right.result is Ok && float_op(operation) is Some ==> {
                &&& whole.result == Ok::<Value, LowerFailure>(right.function.next_value())
                &&& whole.module == right.module
                &&& whole.function.code == right.function.code.push(
                    InstructionView::Binary {
                        op: float_op(operation).unwrap(),
                        left: left.result->Ok_0,
                        right: right.result->Ok_0,
                    },
                )
            }
        }),
{
}

/// A call that is lowered with success, into states that fit in memory,
/// leaves the callee declared in the module under its name with the
/// signature of the call, bound into the function by the next free
/// reference, and called by the last instruction with one value for each
/// argument. The value of the call is the value of that instruction.
pub proof fn lemma_call_declares_callee<B: Backend>(m: ModuleView, f: FunctionView, call: CallNode)
    requires
        lower_call::<B>(m, f, call).result is Ok,
        lower_call::<B>(m, f, call).module.representable(),
        lower_call::<B>(m, f, call).function.representable(),
    ensures
        ({
            let whole = lower_call::<B>(m, f, call);
            let bound = f.func_refs.len() as int;
            let last = whole.function.code.len() - 1;
            &&& bound < whole.function.func_refs.len()
            &&& whole.function.func_refs[bound].0 < whole.module.declarations.len()
            &&& whole.module.declarations[whole.function.func_refs[bound].0 as int].name
                == call.func@
            &&& whole.module.declarations[whole.function.func_refs[bound].0 as int].signature
                == call_signature::<B>(m, f, call)
            &&& m.declaration_index(call.func@) is None
                ==> whole.module.declarations[whole.function.func_refs[bound].0 as int].linkage
                == Linkage::Import
            &&& f.code.len() <= last
            &&& whole.result == Ok::<Value, LowerFailure>(Value(last as usize))
            &&& whole.function.code[last] matches InstructionView::Call { callee, args }
            &&& callee.0 == bound
            &&& args.len() == call.args@.len()
        }),
{
    let whole = lower_call::<B>(m, f, call);
    let signature = call_signature::<B>(m, f, call);
    let declared = m.declare_function(call.func@, Linkage::Import, signature);
    lemma_declare_function_extends(m, call.func@, Linkage::Import, signature);
    let id = declared.result->Ok_0;
    let f1 = f.bind_function(id);
    let arguments = lower_arguments::<B>(declared.module, f1, call, call.args@.len());
    lemma_arguments_extend::<B>(declared.module, f1, call, call.args@.len());
    assert(whole.module == arguments.module);
    assert(declared.module.representable());
    assert(f1.func_refs[f.func_refs.len() as int] == id);
    assert(arguments.function.func_refs[f.func_refs.len() as int] == id);
    assert(arguments.module.declarations[id.0 as int] == declared.module.declarations[id.0 as int]);
}

} // verus!
