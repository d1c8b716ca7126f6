//! The executable lowering of nodes, operations and calls.

use vstd::prelude::*;
use crate::ast::{CallNode, Node, Operation};
use crate::backend::{i32_name, placeholder, pointer_name, Backend};
use crate::context::{outcome, CodegenContext, CompilerContext, FunctionView, ModuleView};
use crate::error::{LowerError, LowerFailure};
use crate::invariants::{lemma_lower_extends, lemma_lower_well_formed};
use crate::ir::{FloatOp, FuncId, Instruction, Value};
use crate::literal::compile_literal;
use crate::lowering::{
    call_signature, float_op, inferred_type_name, lower, lower_arguments, lower_call,
    lower_operation, lower_symbol,
};
use crate::machine::{Linkage, Signature};

verus! {

/// Once an argument has failed, lowering more arguments changes nothing.
pub proof fn lemma_argument_failure_stays<B: Backend>(
    m: ModuleView,
    f: FunctionView,
    call: CallNode,
    failed: nat,
    count: nat,
)
    requires
        lower_arguments::<B>(m, f, call, failed).result is Err,
        failed <= count <= call.args@.len(),
    ensures
        lower_arguments::<B>(m, f, call, count) == lower_arguments::<B>(m, f, call, failed),
    decreases count,
{
    if failed < count {
        lemma_argument_failure_stays::<B>(m, f, call, failed, (count - 1) as nat);
    }
}

/// Lowers a reference to a variable to the variable's current value.
pub fn compile_symbol(ctx: &CodegenContext, name: &str) -> (r: Result<Value, LowerError>)
    ensures
        forall|m: ModuleView| outcome(r) == (#[trigger] lower_symbol(m, ctx@, name@)).result,
{
    match ctx.find_variable(name) {
        Some(i) => Ok(ctx.vars[i].value),
        None => Err(LowerError::UnknownSymbol(String::from_str(name))),
    }
}

/// The arithmetic for an operator, or `None` for an operator that has no
/// lowering rule.
pub fn operation_kind(expr: &Operation) -> (op: Option<FloatOp>)
    ensures
        op == float_op(*expr),
{
    match expr {
        Operation::Add(_) => Some(FloatOp::Fadd),
        Operation::Subtract(_) => Some(FloatOp::Fsub),
        Operation::Multiply(_) => Some(FloatOp::Fmul),
        Operation::Divide(_) => Some(FloatOp::Fdiv),
        _ => None,
    }
}

/// The type name assumed for the parameter that takes `argument` in a call
/// of a function that the unit does not define.
pub fn infer_type_name(ctx: &CodegenContext, argument: &Node) -> (name: String)
    ensures
        name@ == inferred_type_name(ctx@, *argument),
{
    proof {
        reveal_strlit("ptr");
        assert("ptr"@ =~= pointer_name());
    }
    if let Some(ident) = argument.as_symbol() {
        if let Some(i) = ctx.find_variable(ident.value.as_str()) {
            return match &ctx.vars[i].type_ {
                Some(t) => t.clone(),
                None => String::from_str("ptr"),
            };
        }
    }
    String::from_str("ptr")
}

/// Works out the signature that a call is made with.
pub fn resolve_signature<B: Backend>(
    cctx: &CompilerContext,
    ctx: &CodegenContext,
    call: &CallNode,
) -> (sig: Signature)
    ensures
        sig@ == call_signature::<B>(cctx@, ctx@, *call),
{
    let mut sig = Signature::new();
    match cctx.find_function(call.func.as_str()) {
        Some(found) => {
            let ptr = B::ptr(cctx);
            let func = &cctx.functions[found];
            let mut k: usize = 0;
            while k < func.args.len()
                invariant
                    k <= func.args.len(),
                    ptr == cctx@.pointer,
                    sig.params@.len() == k,
                    forall|j: int|
                        0 <= j < k ==> sig.params@[j] == B::type_of(
                            func.args@[j].type_@,
                            ptr,
                            true,
                        ),
                    sig.returns@.len() == 0,
                decreases func.args.len() - k,
            {
                let ty = B::query_type_with_pointer(ptr, func.args[k].type_.as_str());
                sig.params.push(ty);
                k += 1;
            }
            let ret = match &func.ret {
                Some(t) => B::query_type(cctx, t.as_str()),
                None => {
                    proof {
                        reveal_strlit("");
                        assert(""@ =~= placeholder());
                    }
                    B::query_type(cctx, "")
                },
            };
            sig.returns.push(ret);
            assert(sig@.params =~= call_signature::<B>(cctx@, ctx@, *call).params);
            assert(sig@.returns =~= call_signature::<B>(cctx@, ctx@, *call).returns);
        },
        None => {
            let mut k: usize = 0;
            while k < call.args.len()
                invariant
                    k <= call.args.len(),
                    sig.params@.len() == k,
                    forall|j: int|
                        0 <= j < k ==> sig.params@[j] == B::type_of(
                            inferred_type_name(ctx@, call.args@[j].value),
                            cctx@.pointer,
                            false,
                        ),
                    sig.returns@.len() == 0,
                decreases call.args.len() - k,
            {
                let name = infer_type_name(ctx, &call.args[k].value);
                let ty = B::query_type(cctx, name.as_str());
                sig.params.push(ty);
                k += 1;
            }
            proof {
                reveal_strlit("i32");
                assert("i32"@ =~= i32_name());
                B::i32_name_resolves(cctx@.pointer, false);
            }
            let ret = B::query_type(cctx, "i32");
            sig.returns.push(ret);
            assert(sig@.params =~= call_signature::<B>(cctx@, ctx@, *call).params);
            assert(sig@.returns =~= call_signature::<B>(cctx@, ctx@, *call).returns);
        },
    }
    sig
}

/// Lowers a node of any kind. Every sub-expression of an operation or a
/// call is lowered through this function.
pub fn compile<B: Backend>(cctx: &mut CompilerContext, ctx: &mut CodegenContext, node: &Node) -> (r:
    Result<Value, LowerError>)
    ensures
        final(cctx)@ == lower::<B>(old(cctx)@, old(ctx)@, *node).module,
        final(ctx)@ == lower::<B>(old(cctx)@, old(ctx)@, *node).function,
        outcome(r) == lower::<B>(old(cctx)@, old(ctx)@, *node).result,
        final(cctx)@.extends(old(cctx)@),
        final(ctx)@.extends(old(ctx)@),
        old(cctx)@.well_formed() && old(ctx)@.well_formed(old(cctx)@) ==> {
            &&& final(cctx)@.well_formed()
            &&& final(ctx)@.well_formed(final(cctx)@)
            &&& r matches Ok(v) ==> v.0 < final(ctx)@.code.len()
        },
    decreases node, 0nat,
{
    let r = match node {
        Node::Literal(literal) => compile_literal::<B>(cctx, ctx, literal),
        Node::Operation(operation) => compile_op::<B>(cctx, ctx, operation),
        Node::Call(call) => compile_call::<B>(cctx, ctx, call),
        Node::Symbol(symbol) => compile_symbol(ctx, symbol.value.as_str()),
    };
    proof {
        cctx.lemma_representable();
        ctx.lemma_representable();
        lemma_lower_extends::<B>(old(cctx)@, old(ctx)@, *node);
        if old(cctx)@.well_formed() && old(ctx)@.well_formed(old(cctx)@) {
            lemma_lower_well_formed::<B>(old(cctx)@, old(ctx)@, *node);
        }
    }
    r
}

/// Lowers a binary operation: the left operand, then the right one, then
/// floating-point arithmetic on the two values. An operator other than
/// addition, subtraction, multiplication and division is refused.
pub fn compile_op<B: Backend>(
    cctx: &mut CompilerContext,
    ctx: &mut CodegenContext,
    expr: &Operation,
) -> (r: Result<Value, LowerError>)
    ensures
        final(cctx)@ == lower_operation::<B>(old(cctx)@, old(ctx)@, *expr).module,
        final(ctx)@ == lower_operation::<B>(old(cctx)@, old(ctx)@, *expr).function,
        outcome(r) == lower_operation::<B>(old(cctx)@, old(ctx)@, *expr).result,
    decreases expr, 0nat,
{
    let data = expr.data();
    let left = match compile::<B>(cctx, ctx, &data.left) {
        Ok(v) => v,
        Err(e) => {
            return Err(e);
        },
    };
    let right = match compile::<B>(cctx, ctx, &data.right) {
        Ok(v) => v,
        Err(e) => {
            return Err(e);
        },
    };
    match operation_kind(expr) {
        Some(op) => Ok(ctx.emit(Instruction::Binary { op, left, right })),
        None => Err(LowerError::UnsupportedOperation),
    }
}

/// Lowers a call. The callee is declared as an import with the signature
/// worked out for the call and bound into the function; the arguments are
/// lowered from left to right; the call is emitted, and its first result is
/// the value.
pub fn compile_call<B: Backend>(
    cctx: &mut CompilerContext,
    ctx: &mut CodegenContext,
    call: &CallNode,
) -> (r: Result<Value, LowerError>)
    ensures
        final(cctx)@ == lower_call::<B>(old(cctx)@, old(ctx)@, *call).module,
        final(ctx)@ == lower_call::<B>(old(cctx)@, old(ctx)@, *call).function,
        outcome(r) == lower_call::<B>(old(cctx)@, old(ctx)@, *call).result,
    decreases call, call.args@.len() + 1,
{
    let ghost m0 = cctx@;
    let ghost f0 = ctx@;
    let sig = resolve_signature::<B>(cctx, ctx, call);
    let callee = match cctx.declare_function(call.func.as_str(), Linkage::Import, &sig) {
        Ok(id) => id,
        Err(e) => {
            return Err(e);
        },
    };
    let local_callee = ctx.declare_func_in_func(callee);
    let ghost m1 = cctx@;
    let ghost f1 = ctx@;
    let mut args: Vec<Value> = Vec::new();
    let mut i: usize = 0;
    while i < call.args.len()
        invariant
            i <= call.args.len(),
            m0.declare_function(
                call.func@,
                Linkage::Import,
                call_signature::<B>(m0, f0, *call),
            ).result == Ok::<FuncId, LowerFailure>(callee),
            m1 == m0.declare_function(
                call.func@,
                Linkage::Import,
                call_signature::<B>(m0, f0, *call),
            ).module,
            f1 == f0.bind_function(callee),
            m0 == old(cctx)@,
            f0 == old(ctx)@,
            cctx@ == lower_arguments::<B>(m1, f1, *call, i as nat).module,
            ctx@ == lower_arguments::<B>(m1, f1, *call, i as nat).function,
            lower_arguments::<B>(m1, f1, *call, i as nat).result == Ok::<Seq<Value>, LowerFailure>(
                args@,
            ),
        decreases call.args.len() - i,
    {
        match compile::<B>(cctx, ctx, &call.args[i].value) {
            Ok(v) => {
                args.push(v);
            },
            Err(e) => {
                proof {
                    lemma_argument_failure_stays::<B>(
                        m1,
                        f1,
                        *call,
                        (i + 1) as nat,
                        call.args@.len(),
                    );
                }
                return Err(e);
            },
        }
        i += 1;
    }
    Ok(ctx.emit(Instruction::Call { callee: local_callee, args }))
}

/// Operation lowering as a capability of every backend.
pub trait OperationCompiler: Backend + Sized {
    fn compile_op(cctx: &mut CompilerContext, ctx: &mut CodegenContext, expr: &Operation) -> (r:
        Result<Value, LowerError>)
        ensures
            final(cctx)@ == lower_operation::<Self>(old(cctx)@, old(ctx)@, *expr).module,
            final(ctx)@ == lower_operation::<Self>(old(cctx)@, old(ctx)@, *expr).function,
            outcome(r) == lower_operation::<Self>(old(cctx)@, old(ctx)@, *expr).result,
    ;
}

impl<T: Backend> OperationCompiler for T {
    fn compile_op(cctx: &mut CompilerContext, ctx: &mut CodegenContext, expr: &Operation) -> (r:
        Result<Value, LowerError>) {
        compile_op::<T>(cctx, ctx, expr)
    }
}

/// Call lowering as a capability of every backend.
pub trait CallCompiler: Backend + Sized {
    fn compile_call(cctx: &mut CompilerContext, ctx: &mut CodegenContext, call: &CallNode) -> (r:
        Result<Value, LowerError>)
        ensures
            final(cctx)@ == lower_call::<Self>(old(cctx)@, old(ctx)@, *call).module,
            final(ctx)@ == lower_call::<Self>(old(cctx)@, old(ctx)@, *call).function,
            outcome(r) == lower_call::<Self>(old(cctx)@, old(ctx)@, *call).result,
    ;
}

impl<T: Backend> CallCompiler for T {
    fn compile_call(cctx: &mut CompilerContext, ctx: &mut CodegenContext, call: &CallNode) -> (r:
        Result<Value, LowerError>) {
        compile_call::<T>(cctx, ctx, call)
    }
}

} // verus!
