//! Lowering of literals to constants and, for strings, to data objects.

use vstd::prelude::*;
use crate::ast::{BoolNode, CharNode, FloatNode, IntNode, LiteralNode, StringNode};
use crate::backend::Backend;
use crate::context::{outcome, CodegenContext, CompilerContext};
use crate::error::LowerError;
use crate::ir::{Instruction, Value};
use crate::lowering::{literal_constant, lower_literal, lower_string};
use crate::machine::MachineType;

verus! {

/// Lowers a boolean to a one-bit integer constant, 1 for true and 0 for
/// false.
pub fn compile_bool(ctx: &mut CodegenContext, value: &BoolNode) -> (v: Value)
    ensures
        final(ctx)@ == old(ctx)@.emit(literal_constant(LiteralNode::Bool(*value)).unwrap()),
        v == old(ctx)@.next_value(),
{
    let imm: i64 = if value.value {
        1
    } else {
        0
    };
    ctx.emit(Instruction::Iconst { ty: MachineType::I1, imm })
}

/// Lowers an integer to a 32-bit integer constant.
pub fn compile_int(ctx: &mut CodegenContext, value: &IntNode) -> (v: Value)
    ensures
        final(ctx)@ == old(ctx)@.emit(literal_constant(LiteralNode::Int(*value)).unwrap()),
        v == old(ctx)@.next_value(),
{
    ctx.emit(Instruction::Iconst { ty: MachineType::I32, imm: value.value })
}

/// Lowers a floating-point number to a 64-bit floating-point constant.
pub fn compile_float(ctx: &mut CodegenContext, value: &FloatNode) -> (v: Value)
    ensures
        final(ctx)@ == old(ctx)@.emit(literal_constant(LiteralNode::Float(*value)).unwrap()),
        v == old(ctx)@.next_value(),
{
    ctx.emit(Instruction::F64const { bits: value.bits })
}

/// Lowers a character to a 32-bit integer constant that holds its code
/// point.
pub fn compile_char(ctx: &mut CodegenContext, value: &CharNode) -> (v: Value)
    ensures
        final(ctx)@ == old(ctx)@.emit(literal_constant(LiteralNode::Char(*value)).unwrap()),
        v == old(ctx)@.next_value(),
{
    let code: u32 = value.value as u32;
    ctx.emit(Instruction::Iconst { ty: MachineType::I32, imm: code as i64 })
}

/// Lowers a string: defines a data object that holds its bytes and a
/// terminating zero, binds the object into the function and gives its
/// address.
pub fn compile_string<B: Backend>(
    cctx: &mut CompilerContext,
    ctx: &mut CodegenContext,
    value: &StringNode,
) -> (r: Result<Value, LowerError>)
    ensures
        final(cctx)@ == lower_string(old(cctx)@, old(ctx)@, value.value@).module,
        final(ctx)@ == lower_string(old(cctx)@, old(ctx)@, value.value@).function,
        outcome(r) == lower_string(old(cctx)@, old(ctx)@, value.value@).result,
{
    let ptr = B::ptr(cctx);
    match cctx.define_string(value.value.as_str()) {
        Err(e) => Err(e),
        Ok(id) => {
            let local = ctx.declare_data_in_func(id);
            Ok(ctx.emit(Instruction::GlobalValue { ty: ptr, global: local }))
        },
    }
}

/// Lowers a literal of any kind.
pub fn compile_literal<B: Backend>(
    cctx: &mut CompilerContext,
    ctx: &mut CodegenContext,
    node: &LiteralNode,
) -> (r: Result<Value, LowerError>)
    ensures
        final(cctx)@ == lower_literal(old(cctx)@, old(ctx)@, *node).module,
        final(ctx)@ == lower_literal(old(cctx)@, old(ctx)@, *node).function,
        outcome(r) == lower_literal(old(cctx)@, old(ctx)@, *node).result,
{
    match node {
        LiteralNode::Bool(b) => Ok(compile_bool(ctx, b)),
        LiteralNode::Int(i) => Ok(compile_int(ctx, i)),
        LiteralNode::Float(f) => Ok(compile_float(ctx, f)),
        LiteralNode::String(s) => compile_string::<B>(cctx, ctx, s),
        LiteralNode::Char(c) => Ok(compile_char(ctx, c)),
    }
}

/// Literal lowering as a capability of every backend.
pub trait LiteralCompiler: Backend + Sized {
    fn compile_bool(ctx: &mut CodegenContext, value: &BoolNode) -> (v: Value)
        ensures
            final(ctx)@ == old(ctx)@.emit(literal_constant(LiteralNode::Bool(*value)).unwrap()),
            v == old(ctx)@.next_value(),
    ;

    fn compile_int(ctx: &mut CodegenContext, value: &IntNode) -> (v: Value)
        ensures
            final(ctx)@ == old(ctx)@.emit(literal_constant(LiteralNode::Int(*value)).unwrap()),
            v == old(ctx)@.next_value(),
    ;

    fn compile_float(ctx: &mut CodegenContext, value: &FloatNode) -> (v: Value)
        ensures
            final(ctx)@ == old(ctx)@.emit(literal_constant(LiteralNode::Float(*value)).unwrap()),
            v == old(ctx)@.next_value(),
    ;

    fn compile_char(ctx: &mut CodegenContext, value: &CharNode) -> (v: Value)
        ensures
            final(ctx)@ == old(ctx)@.emit(literal_constant(LiteralNode::Char(*value)).unwrap()),
            v == old(ctx)@.next_value(),
    ;

    fn compile_string(
        cctx: &mut CompilerContext,
        ctx: &mut CodegenContext,
        value: &StringNode,
    ) -> (r: Result<Value, LowerError>)
        ensures
            final(cctx)@ == lower_string(old(cctx)@, old(ctx)@, value.value@).module,
            final(ctx)@ == lower_string(old(cctx)@, old(ctx)@, value.value@).function,
            outcome(r) == lower_string(old(cctx)@, old(ctx)@, value.value@).result,
    ;

    fn compile_literal(
        cctx: &mut CompilerContext,
        ctx: &mut CodegenContext,
        node: &LiteralNode,
    ) -> (r: Result<Value, LowerError>)
        ensures
            final(cctx)@ == lower_literal(old(cctx)@, old(ctx)@, *node).module,
            final(ctx)@ == lower_literal(old(cctx)@, old(ctx)@, *node).function,
            outcome(r) == lower_literal(old(cctx)@, old(ctx)@, *node).result,
    ;
}

impl<T: Backend> LiteralCompiler for T {
    fn compile_bool(ctx: &mut CodegenContext, value: &BoolNode) -> (v: Value) {
        compile_bool(ctx, value)
    }

    fn compile_int(ctx: &mut CodegenContext, value: &IntNode) -> (v: Value) {
        compile_int(ctx, value)
    }

    fn compile_float(ctx: &mut CodegenContext, value: &FloatNode) -> (v: Value) {
        compile_float(ctx, value)
    }

    fn compile_char(ctx: &mut CodegenContext, value: &CharNode) -> (v: Value) {
        compile_char(ctx, value)
    }

    fn compile_string(
        cctx: &mut CompilerContext,
        ctx: &mut CodegenContext,
        value: &StringNode,
    ) -> (r: Result<Value, LowerError>) {
        compile_string::<T>(cctx, ctx, value)
    }

    fn compile_literal(
        cctx: &mut CompilerContext,
        ctx: &mut CodegenContext,
        node: &LiteralNode,
    ) -> (r: Result<Value, LowerError>) {
        compile_literal::<T>(cctx, ctx, node)
    }
}

} // verus!
