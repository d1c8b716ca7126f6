//! What lowering keeps true of the module and the function it works on:
//! they only grow, and they stay well formed.

use vstd::prelude::*;
use crate::ast::{CallNode, Node, Operation};
use crate::backend::Backend;
use crate::context::{literal_name, FunctionView, ModuleView};
use crate::ir::{lemma_last_index_of, InstructionView};
use crate::lowering::{
    call_signature, lower, lower_arguments, lower_call, lower_operation, lower_string,
};
use crate::machine::{Linkage, SigView};

verus! {

/// Declaring a function only adds to the module, and gives an id that the
/// resulting module holds.
pub proof fn lemma_declare_function_extends(
    m: ModuleView,
    name: Seq<char>,
    linkage: Linkage,
    signature: SigView,
)
    ensures
        m.declare_function(name, linkage, signature).module.extends(m),
        m.declare_function(name, linkage, signature).module.data == m.data,
        m.declare_function(name, linkage, signature).module.data_desc == m.data_desc,
        m.declare_function(name, linkage, signature).result is Err ==> m.declare_function(
            name,
            linkage,
            signature,
        ).module == m,
        m.declare_function(name, linkage, signature).module.representable() ==> (m.declare_function(
            name,
            linkage,
            signature,
        ).result matches Ok(id) ==> {
            &&& id.0 < m.declare_function(name, linkage, signature).module.declarations.len()
            &&& m.declare_function(name, linkage, signature).module.declarations[id.0 as int].name
                == name
            &&& m.declare_function(
                name,
                linkage,
                signature,
            ).module.declarations[id.0 as int].signature == signature
        }),
        m.well_formed() ==> m.declare_function(name, linkage, signature).module.well_formed(),
{
    lemma_last_index_of(m.data_names(), name);
    lemma_last_index_of(m.declaration_names(), name);
    let after = m.declare_function(name, linkage, signature).module;
    if m.well_formed() {
        assert forall|i: int, j: int| 0 <= i < j < after.declarations.len() implies (
        #[trigger] after.declarations[i]).name != (#[trigger] after.declarations[j]).name by {
            if j == m.declarations.len() {
                assert(m.declaration_names()[i] == m.declarations[i].name);
            }
        }
        assert forall|i: int, j: int|
            0 <= i < after.data.len() && 0 <= j < after.declarations.len() implies (
        #[trigger] after.data[i]).name != (#[trigger] after.declarations[j]).name by {
            if j == m.declarations.len() {
                assert(m.data_names()[i] == m.data[i].name);
            }
        }
    }
}

/// Defining the data object of a string literal only adds to the module,
/// leaves no bytes over, and gives an id that the resulting module holds.
pub proof fn lemma_define_string_extends(m: ModuleView, text: Seq<char>)
    ensures
        m.define_string(text).module.extends(m),
        m.define_string(text).module.declarations == m.declarations,
        m.define_string(text).result is Err ==> m.define_string(text).module == m,
        m.define_string(text).result is Ok ==> m.define_string(text).module.data_desc.len() == 0,
        m.define_string(text).module.representable() ==> (m.define_string(
            text,
        ).result matches Ok(id) ==> id.0 < m.define_string(text).module.data.len()),
        m.well_formed() ==> m.define_string(text).module.well_formed(),
{
    let name = literal_name(m.data.len());
    lemma_last_index_of(m.data_names(), name);
    lemma_last_index_of(m.declaration_names(), name);
    let after = m.define_string(text).module;
    if m.well_formed() && m.define_string(text).result is Ok {
        assert forall|i: int, j: int| 0 <= i < j < after.data.len() implies (
        #[trigger] after.data[i]).name != (#[trigger] after.data[j]).name by {
            if j == m.data.len() {
                assert(m.data_names()[i] == m.data[i].name);
            }
        }
        assert forall|i: int, j: int|
            0 <= i < after.data.len() && 0 <= j < after.declarations.len() implies (
        #[trigger] after.data[i]).name != (#[trigger] after.declarations[j]).name by {
            if i == m.data.len() {
                assert(m.declaration_names()[j] == m.declarations[j].name);
            }
        }
    }
}

/// Growth is transitive.
pub proof fn lemma_extends_transitive(
    m0: ModuleView,
    f0: FunctionView,
    m1: ModuleView,
    f1: FunctionView,
    m2: ModuleView,
    f2: FunctionView,
)
    requires
        m1.extends(m0),
        f1.extends(f0),
        m2.extends(m1),
        f2.extends(f1),
    ensures
        m2.extends(m0),
        f2.extends(f0),
{
    assert forall|i: int| 0 <= i < m0.declarations.len() implies m2.declarations[i]
        == #[trigger] m0.declarations[i] by {
        assert(m1.declarations[i] == m0.declarations[i]);
    }
    assert forall|i: int| 0 <= i < m0.data.len() implies m2.data[i] == #[trigger] m0.data[i] by {
        assert(m1.data[i] == m0.data[i]);
    }
    assert forall|i: int| 0 <= i < f0.code.len() implies f2.code[i] == #[trigger] f0.code[i] by {
        assert(f1.code[i] == f0.code[i]);
    }
    assert forall|i: int| 0 <= i < f0.func_refs.len() implies f2.func_refs[i]
        == #[trigger] f0.func_refs[i] by {
        assert(f1.func_refs[i] == f0.func_refs[i]);
    }
    assert forall|i: int| 0 <= i < f0.globals.len() implies f2.globals[i]
        == #[trigger] f0.globals[i] by {
        assert(f1.globals[i] == f0.globals[i]);
    }
}

/// Lowering a string literal only adds to the module and the function.
pub proof fn lemma_string_extends(m: ModuleView, f: FunctionView, text: Seq<char>)
    ensures
        lower_string(m, f, text).module.extends(m),
        lower_string(m, f, text).function.extends(f),
{
    lemma_define_string_extends(m, text);
}

/// Lowering a node only adds to the module and the function: the module
/// keeps its definitions, declarations and data objects, in place; the
/// function keeps its variables, instructions and bindings, in place.
pub proof fn lemma_lower_extends<B: Backend>(m: ModuleView, f: FunctionView, node: Node)
    ensures
        lower::<B>(m, f, node).module.extends(m),
        lower::<B>(m, f, node).function.extends(f),
    decreases node, 0nat,
{
    match node {
        Node::Literal(literal) => {
            match literal {
                crate::ast::LiteralNode::String(s) => {
                    lemma_string_extends(m, f, s.value@);
                },
                _ => {},
            }
        },
        Node::Operation(operation) => {
            lemma_operation_extends::<B>(m, f, operation);
        },
        Node::Call(call) => {
            lemma_call_extends::<B>(m, f, call);
        },
        Node::Symbol(_) => {},
    }
}

/// Lowering an operation only adds to the module and the function.
pub proof fn lemma_operation_extends<B: Backend>(
    m: ModuleView,
    f: FunctionView,
    operation: Operation,
)
    ensures
        lower_operation::<B>(m, f, operation).module.extends(m),
        lower_operation::<B>(m, f, operation).function.extends(f),
    decreases operation, 0nat,
{
    let left = lower::<B>(m, f, *operation.operands().left);
    lemma_lower_extends::<B>(m, f, *operation.operands().left);
    if left.result is Ok {
        let right = lower::<B>(left.module, left.function, *operation.operands().right);
        lemma_lower_extends::<B>(left.module, left.function, *operation.operands().right);
        lemma_extends_transitive(m, f, left.module, left.function, right.module, right.function);
        let whole = lower_operation::<B>(m, f, operation);
        assert(whole.module == right.module);
        assert(whole.function.extends(right.function));
        lemma_extends_transitive(
            m,
            f,
            right.module,
            right.function,
            whole.module,
            whole.function,
        );
    }
}

/// Lowering arguments only adds to the module and the function.
pub proof fn lemma_arguments_extend<B: Backend>(
    m: ModuleView,
    f: FunctionView,
    call: CallNode,
    count: nat,
)
    ensures
        lower_arguments::<B>(m, f, call, count).module.extends(m),
        lower_arguments::<B>(m, f, call, count).function.extends(f),
        lower_arguments::<B>(m, f, call, count).result matches Ok(values) ==> values.len() == (
        if count <= call.args@.len() {
            count
        } else {
            0
        }),
    decreases call, count,
{
    if count == 0 || count > call.args@.len() {
    } else {
        let before = lower_arguments::<B>(m, f, call, (count - 1) as nat);
        lemma_arguments_extend::<B>(m, f, call, (count - 1) as nat);
        if before.result is Ok {
            let this = lower::<B>(before.module, before.function, call.args@[count - 1].value);
            lemma_lower_extends::<B>(before.module, before.function, call.args@[count - 1].value);
            lemma_extends_transitive(
                m,
                f,
                before.module,
                before.function,
                this.module,
                this.function,
            );
        }
    }
}

/// Lowering a call only adds to the module and the function.
pub proof fn lemma_call_extends<B: Backend>(m: ModuleView, f: FunctionView, call: CallNode)
    ensures
        lower_call::<B>(m, f, call).module.extends(m),
        lower_call::<B>(m, f, call).function.extends(f),
    decreases call, call.args@.len() + 1,
{
    let signature = call_signature::<B>(m, f, call);
    let declared = m.declare_function(call.func@, Linkage::Import, signature);
    lemma_declare_function_extends(m, call.func@, Linkage::Import, signature);
    match declared.result {
        Err(_) => {},
        Ok(id) => {
            let f1 = f.bind_function(id);
            assert(f1.extends(f));
            let arguments = lower_arguments::<B>(declared.module, f1, call, call.args@.len());
            lemma_arguments_extend::<B>(declared.module, f1, call, call.args@.len());
            lemma_extends_transitive(
                m,
                f,
                declared.module,
                f1,
                arguments.module,
                arguments.function,
            );
            let whole = lower_call::<B>(m, f, call);
            assert(whole.function.extends(arguments.function));
            assert(whole.module == arguments.module);
            lemma_extends_transitive(
                m,
                f,
                arguments.module,
                arguments.function,
                whole.module,
                whole.function,
            );
        },
    }
}

/// A function that is well formed in a module is well formed in what the
/// module grows into.
pub proof fn lemma_well_formed_in_extension(f: FunctionView, m: ModuleView, later: ModuleView)
    requires
        f.well_formed(m),
        later.extends(m),
    ensures
        f.well_formed(later),
{
}

/// Emitting an instruction that is well formed at its position keeps the
/// function well formed, and the value it defines is that position.
pub proof fn lemma_emit_well_formed(m: ModuleView, f: FunctionView, instruction: InstructionView)
    requires
        f.well_formed(m),
        f.code.len() < usize::MAX,
        f.emit(instruction).instruction_well_formed(f.code.len() as int),
    ensures
        f.emit(instruction).well_formed(m),
        f.next_value().0 == f.code.len(),
{
    let after = f.emit(instruction);
    assert forall|i: int| 0 <= i < after.code.len() implies #[trigger] after.instruction_well_formed(
        i,
    ) by {
        if i < f.code.len() {
            assert(f.instruction_well_formed(i));
            assert(after.code[i] == f.code[i]);
        }
    }
    assert forall|i: int| 0 <= i < after.vars.len() implies (#[trigger] after.vars[i]).value.0
        < after.code.len() by {
        assert(f.vars[i].value.0 < f.code.len());
    }
}

/// A function stays well formed when only its bindings grow, by entries
/// that the module holds.
proof fn lemma_bound_well_formed(m: ModuleView, f: FunctionView, after: FunctionView)
    requires
        f.well_formed(m),
        after.extends(f),
        after.code == f.code,
        forall|i: int|
            f.func_refs.len() <= i < after.func_refs.len() ==> (#[trigger] after.func_refs[i]).0
                < m.declarations.len(),
        forall|i: int|
            f.globals.len() <= i < after.globals.len() ==> (#[trigger] after.globals[i]).0
                < m.data.len(),
    ensures
        after.well_formed(m),
{
    assert forall|i: int| 0 <= i < after.code.len() implies #[trigger] after.instruction_well_formed(
        i,
    ) by {
        assert(f.instruction_well_formed(i));
    }
    assert forall|i: int| 0 <= i < after.func_refs.len() implies (
    #[trigger] after.func_refs[i]).0 < m.declarations.len() by {
        if i < f.func_refs.len() {
            assert(f.func_refs[i].0 < m.declarations.len());
        }
    }
    assert forall|i: int| 0 <= i < after.globals.len() implies (#[trigger] after.globals[i]).0
        < m.data.len() by {
        if i < f.globals.len() {
            assert(f.globals[i].0 < m.data.len());
        }
    }
    assert forall|i: int| 0 <= i < after.vars.len() implies (#[trigger] after.vars[i]).value.0
        < after.code.len() by {
        assert(f.vars[i].value.0 < f.code.len());
    }
}

/// Lowering a string literal keeps a well-formed module and function well
/// formed, and its value is defined.
pub proof fn lemma_string_well_formed(m: ModuleView, f: FunctionView, text: Seq<char>)
    requires
        m.well_formed(),
        f.well_formed(m),
        lower_string(m, f, text).module.representable(),
        lower_string(m, f, text).function.representable(),
    ensures
        lower_string(m, f, text).module.well_formed(),
        lower_string(m, f, text).function.well_formed(lower_string(m, f, text).module),
        lower_string(m, f, text).result matches Ok(v) ==> v.0 < lower_string(
            m,
            f,
            text,
        ).function.code.len(),
{
    lemma_define_string_extends(m, text);
    let defined = m.define_string(text);
    match defined.result {
        Err(_) => {},
        Ok(id) => {
            let f1 = f.bind_data(id);
            lemma_well_formed_in_extension(f, m, defined.module);
            lemma_bound_well_formed(defined.module, f, f1);
            lemma_emit_well_formed(
                defined.module,
                f1,
                InstructionView::GlobalValue { ty: m.pointer, global: f.next_global() },
            );
        },
    }
}

/// Lowering a node keeps a well-formed module and function well formed,
/// and the value it gives is defined in the resulting function. This holds
/// of every lowering whose results fit in memory.
pub proof fn lemma_lower_well_formed<B: Backend>(m: ModuleView, f: FunctionView, node: Node)
    requires
        m.well_formed(),
        f.well_formed(m),
        lower::<B>(m, f, node).module.representable(),
        lower::<B>(m, f, node).function.representable(),
    ensures
        lower::<B>(m, f, node).module.well_formed(),
        lower::<B>(m, f, node).function.well_formed(lower::<B>(m, f, node).module),
        lower::<B>(m, f, node).result matches Ok(v) ==> v.0 < lower::<B>(
            m,
            f,
            node,
        ).function.code.len(),
    decreases node, 0nat,
{
    match node {
        Node::Literal(literal) => {
            match literal {
                crate::ast::LiteralNode::String(s) => {
                    lemma_string_well_formed(m, f, s.value@);
                },
                _ => {
                    lemma_emit_well_formed(
                        m,
                        f,
                        crate::lowering::literal_constant(literal).unwrap(),
                    );
                },
            }
        },
        Node::Operation(operation) => {
            lemma_operation_well_formed::<B>(m, f, operation);
        },
        Node::Call(call) => {
            lemma_call_well_formed::<B>(m, f, call);
        },
        Node::Symbol(symbol) => {
            lemma_last_index_of(f.variable_names(), symbol.value@);
        },
    }
}

/// Lowering an operation keeps a well-formed module and function well
/// formed.
pub proof fn lemma_operation_well_formed<B: Backend>(
    m: ModuleView,
    f: FunctionView,
    operation: Operation,
)
    requires
        m.well_formed(),
        f.well_formed(m),
        lower_operation::<B>(m, f, operation).module.representable(),
        lower_operation::<B>(m, f, operation).function.representable(),
    ensures
        lower_operation::<B>(m, f, operation).module.well_formed(),
        lower_operation::<B>(m, f, operation).function.well_formed(
            lower_operation::<B>(m, f, operation).module,
        ),
        lower_operation::<B>(m, f, operation).result matches Ok(v) ==> v.0 < lower_operation::<B>(
            m,
            f,
            operation,
        ).function.code.len(),
    decreases operation, 0nat,
{
    let whole = lower_operation::<B>(m, f, operation);
    let left = lower::<B>(m, f, *operation.operands().left);
    lemma_lower_extends::<B>(m, f, *operation.operands().left);
    match left.result {
        Err(_) => {
            lemma_lower_well_formed::<B>(m, f, *operation.operands().left);
        },
        Ok(l) => {
            let right = lower::<B>(left.module, left.function, *operation.operands().right);
            lemma_lower_extends::<B>(left.module, left.function, *operation.operands().right);
            assert(whole.module == right.module);
            assert(whole.function.extends(right.function));
            lemma_lower_well_formed::<B>(m, f, *operation.operands().left);
            lemma_lower_well_formed::<B>(left.module, left.function, *operation.operands().right);
            match right.result {
                Err(_) => {},
                Ok(r) => {
                    match crate::lowering::float_op(operation) {
                        Some(op) => {
                            lemma_emit_well_formed(
                                right.module,
                                right.function,
                                InstructionView::Binary { op, left: l, right: r },
                            );
                        },
                        None => {},
                    }
                },
            }
        },
    }
}

/// Lowering arguments keeps a well-formed module and function well formed,
/// and every argument value is defined in the resulting function.
pub proof fn lemma_arguments_well_formed<B: Backend>(
    m: ModuleView,
    f: FunctionView,
    call: CallNode,
    count: nat,
)
    requires
        m.well_formed(),
        f.well_formed(m),
        lower_arguments::<B>(m, f, call, count).module.representable(),
        lower_arguments::<B>(m, f, call, count).function.representable(),
    ensures
        lower_arguments::<B>(m, f, call, count).module.well_formed(),
        lower_arguments::<B>(m, f, call, count).function.well_formed(
            lower_arguments::<B>(m, f, call, count).module,
        ),
        lower_arguments::<B>(m, f, call, count).result matches Ok(values) ==> forall|k: int|
            0 <= k < values.len() ==> (#[trigger] values[k]).0 < lower_arguments::<B>(
                m,
                f,
                call,
                count,
            ).function.code.len(),
    decreases call, count,
{
    if count == 0 || count > call.args@.len() {
    } else {
        let before = lower_arguments::<B>(m, f, call, (count - 1) as nat);
        lemma_arguments_extend::<B>(m, f, call, (count - 1) as nat);
        match before.result {
            Err(_) => {
                lemma_arguments_well_formed::<B>(m, f, call, (count - 1) as nat);
            },
            Ok(values) => {
                let this = lower::<B>(before.module, before.function, call.args@[count - 1].value);
                lemma_lower_extends::<B>(
                    before.module,
                    before.function,
                    call.args@[count - 1].value,
                );
                lemma_arguments_well_formed::<B>(m, f, call, (count - 1) as nat);
                lemma_lower_well_formed::<B>(
                    before.module,
                    before.function,
                    call.args@[count - 1].value,
                );
                match this.result {
                    Err(_) => {},
                    Ok(v) => {
                        let all = values.push(v);
                        assert forall|k: int| 0 <= k < all.len() implies (#[trigger] all[k]).0
                            < this.function.code.len() by {
                            if k < values.len() {
                                assert(values[k].0 < before.function.code.len());
                            }
                        }
                    },
                }
            },
        }
    }
}

/// Lowering a call keeps a well-formed module and function well formed.
pub proof fn lemma_call_well_formed<B: Backend>(m: ModuleView, f: FunctionView, call: CallNode)
    requires
        m.well_formed(),
        f.well_formed(m),
        lower_call::<B>(m, f, call).module.representable(),
        lower_call::<B>(m, f, call).function.representable(),
    ensures
        lower_call::<B>(m, f, call).module.well_formed(),
        lower_call::<B>(m, f, call).function.well_formed(lower_call::<B>(m, f, call).module),
        lower_call::<B>(m, f, call).result matches Ok(v) ==> v.0 < lower_call::<B>(
            m,
            f,
            call,
        ).function.code.len(),
    decreases call, call.args@.len() + 1,
{
    let whole = lower_call::<B>(m, f, call);
    let signature = call_signature::<B>(m, f, call);
    let declared = m.declare_function(call.func@, Linkage::Import, signature);
    lemma_declare_function_extends(m, call.func@, Linkage::Import, signature);
    match declared.result {
        Err(_) => {},
        Ok(id) => {
            let f1 = f.bind_function(id);
            let arguments = lower_arguments::<B>(declared.module, f1, call, call.args@.len());
            lemma_arguments_extend::<B>(declared.module, f1, call, call.args@.len());
            assert(whole.module == arguments.module);
            assert(whole.function.extends(arguments.function));
            assert(declared.module.representable());
            lemma_well_formed_in_extension(f, m, declared.module);
            lemma_bound_well_formed(declared.module, f, f1);
            lemma_arguments_well_formed::<B>(declared.module, f1, call, call.args@.len());
            match arguments.result {
                Err(_) => {},
                Ok(values) => {
                    assert(f.next_func_ref().0 == f.func_refs.len());
                    assert(f1.func_refs.len() <= arguments.function.func_refs.len());
                    lemma_emit_well_formed(
                        arguments.module,
                        arguments.function,
                        InstructionView::Call { callee: f.next_func_ref(), args: values },
                    );
                },
            }
        },
    }
}

} // verus!
