use qsc::ast::{
    BoolNode, CallArgument, CallNode, CharNode, FloatNode, FunctionSignature, IntNode,
    LiteralNode, Node, Operation, OperationData, Parameter, Span, StringNode, SymbolNode,
};
use qsc::backend::{primitive, Backend, DefaultBackend};
use qsc::context::{CodegenContext, CompilerContext, Variable};
use qsc::error::LowerError;
use qsc::generator::{
    compile, compile_call, compile_op, compile_symbol, infer_type_name, operation_kind,
    resolve_signature,
};
use qsc::ir::{DataId, FloatOp, FuncId, FuncRef, GlobalValue, Instruction, Value};
use qsc::literal::{
    compile_bool, compile_char, compile_float, compile_int, compile_literal, compile_string,
};
use qsc::machine::{Linkage, MachineType, Signature};

fn at(start: usize, end: usize) -> Span {
    Span { start, end }
}

fn integer(value: i64) -> Node {
    Node::Literal(LiteralNode::Int(IntNode { span: at(0, 1), value }))
}

fn number(value: f64) -> Node {
    Node::Literal(LiteralNode::Float(FloatNode { span: at(0, 1), bits: value.to_bits() }))
}

fn text(value: &str) -> Node {
    Node::Literal(LiteralNode::String(StringNode { span: at(0, 1), value: value.to_string() }))
}

fn symbol(name: &str) -> Node {
    Node::Symbol(SymbolNode { span: at(0, 1), value: name.to_string() })
}

fn operands(left: Node, right: Node) -> OperationData {
    OperationData { span: at(0, 1), left: Box::new(left), right: Box::new(right) }
}

fn call(func: &str, args: Vec<Node>) -> CallNode {
    CallNode {
        span: at(0, 1),
        func: func.to_string(),
        args: args.into_iter().map(|value| CallArgument { span: at(0, 1), value }).collect(),
    }
}

fn parameter(name: &str, type_: &str) -> Parameter {
    Parameter { name: name.to_string(), type_: type_.to_string() }
}

fn contexts() -> (CompilerContext, CodegenContext) {
    (CompilerContext::new(MachineType::I64), CodegenContext::new())
}

/// Evaluates emitted floating-point code, for the instructions that hold
/// or combine 64-bit floating-point numbers.
fn evaluate(code: &[Instruction], value: Value) -> f64 {
    match &code[value.0] {
        Instruction::F64const { bits } => f64::from_bits(*bits),
        Instruction::Binary { op, left, right } => {
            let l = evaluate(code, *left);
            let r = evaluate(code, *right);
            match op {
                FloatOp::Fadd => l + r,
                FloatOp::Fsub => l - r,
                FloatOp::Fmul => l * r,
                FloatOp::Fdiv => l / r,
            }
        }
        other => panic!("not a floating-point instruction: {:?}", other),
    }
}

#[test]
fn bool_literal_is_one_bit_constant() {
    let mut ctx = CodegenContext::new();
    let t = compile_bool(&mut ctx, &BoolNode { span: at(0, 4), value: true });
    let f = compile_bool(&mut ctx, &BoolNode { span: at(5, 10), value: false });
    assert_eq!(t, Value(0));
    assert_eq!(f, Value(1));
    assert_eq!(
        ctx.code,
        vec![
            Instruction::Iconst { ty: MachineType::I1, imm: 1 },
            Instruction::Iconst { ty: MachineType::I1, imm: 0 },
        ]
    );
}

#[test]
fn int_literal_is_32_bit_constant() {
    let mut ctx = CodegenContext::new();
    let v = compile_int(&mut ctx, &IntNode { span: at(0, 2), value: -42 });
    assert_eq!(v, Value(0));
    assert_eq!(ctx.code, vec![Instruction::Iconst { ty: MachineType::I32, imm: -42 }]);
}

#[test]
fn float_literal_is_64_bit_float_constant() {
    let mut ctx = CodegenContext::new();
    let v = compile_float(&mut ctx, &FloatNode { span: at(0, 3), bits: 1.5f64.to_bits() });
    assert_eq!(v, Value(0));
    assert_eq!(ctx.code, vec![Instruction::F64const { bits: 0x3FF8_0000_0000_0000 }]);
}

#[test]
fn char_literal_is_its_code_point() {
    let mut ctx = CodegenContext::new();
    compile_char(&mut ctx, &CharNode { span: at(0, 3), value: 'A' });
    compile_char(&mut ctx, &CharNode { span: at(0, 3), value: '\u{1F600}' });
    assert_eq!(
        ctx.code,
        vec![
            Instruction::Iconst { ty: MachineType::I32, imm: 65 },
            Instruction::Iconst { ty: MachineType::I32, imm: 0x1F600 },
        ]
    );
}

#[test]
fn equal_literals_at_different_places_give_equal_constants() {
    let (mut cctx, mut ctx) = contexts();
    let a = LiteralNode::Int(IntNode { span: at(0, 1), value: 7 });
    let b = LiteralNode::Int(IntNode { span: at(40, 41), value: 7 });
    let va = compile_literal::<DefaultBackend>(&mut cctx, &mut ctx, &a).unwrap();
    let vb = compile_literal::<DefaultBackend>(&mut cctx, &mut ctx, &b).unwrap();
    assert_ne!(va, vb);
    assert_eq!(ctx.code[va.0], ctx.code[vb.0]);
    assert!(cctx.data.is_empty());
}

#[test]
fn string_literal_lowered_twice_gives_two_objects() {
    let (mut cctx, mut ctx) = contexts();
    let node = StringNode { span: at(0, 4), value: "hi".to_string() };
    let first = compile_string::<DefaultBackend>(&mut cctx, &mut ctx, &node).unwrap();
    let second = compile_string::<DefaultBackend>(&mut cctx, &mut ctx, &node).unwrap();
    assert_ne!(first, second);
    assert_eq!(cctx.data.len(), 2);
    assert_eq!(cctx.data[0].name, "literal_string_0");
    assert_eq!(cctx.data[1].name, "literal_string_1");
    assert_ne!(cctx.data[0].name, cctx.data[1].name);
    assert_eq!(cctx.data[0].contents, b"hi\0".to_vec());
    assert_eq!(cctx.data[1].contents, b"hi\0".to_vec());
    assert_eq!(cctx.data[0].linkage, Linkage::Export);
    assert!(!cctx.data[0].writable);
    assert!(cctx.data_desc.is_empty());
    assert_eq!(ctx.globals, vec![DataId(0), DataId(1)]);
    assert_eq!(
        ctx.code,
        vec![
            Instruction::GlobalValue { ty: MachineType::I64, global: GlobalValue(0) },
            Instruction::GlobalValue { ty: MachineType::I64, global: GlobalValue(1) },
        ]
    );
}

#[test]
fn two_equal_string_literals_in_one_module_are_stored_apart() {
    let (mut cctx, mut ctx) = contexts();
    let a = compile::<DefaultBackend>(&mut cctx, &mut ctx, &text("a")).unwrap();
    let b = compile::<DefaultBackend>(&mut cctx, &mut ctx, &text("a")).unwrap();
    assert_ne!(a, b);
    assert_eq!(cctx.data.len(), 2);
    assert_ne!(cctx.data[0].name, cctx.data[1].name);
    assert_eq!(cctx.data[0].contents, vec![b'a', 0]);
    assert_eq!(cctx.data[1].contents, vec![b'a', 0]);
}

#[test]
fn string_literal_is_encoded_as_utf8() {
    let (mut cctx, mut ctx) = contexts();
    compile::<DefaultBackend>(&mut cctx, &mut ctx, &text("é")).unwrap();
    assert_eq!(cctx.data[0].contents, vec![0xC3, 0xA9, 0]);
    compile::<DefaultBackend>(&mut cctx, &mut ctx, &text("")).unwrap();
    assert_eq!(cctx.data[1].contents, vec![0]);
}

#[test]
fn string_literal_pointer_follows_the_target() {
    let mut cctx = CompilerContext::new(MachineType::I32);
    let mut ctx = CodegenContext::new();
    compile::<DefaultBackend>(&mut cctx, &mut ctx, &text("x")).unwrap();
    assert_eq!(
        ctx.code,
        vec![Instruction::GlobalValue { ty: MachineType::I32, global: GlobalValue(0) }]
    );
}

#[test]
fn string_literal_name_conflict_is_reported() {
    let (mut cctx, mut ctx) = contexts();
    let sig = Signature { params: vec![], returns: vec![MachineType::I32] };
    cctx.declare_function("literal_string_0", Linkage::Import, &sig).unwrap();
    let r = compile::<DefaultBackend>(&mut cctx, &mut ctx, &text("a"));
    assert_eq!(r, Err(LowerError::SymbolConflict("literal_string_0".to_string())));
    assert!(cctx.data.is_empty());
    assert!(cctx.data_desc.is_empty());
    assert!(ctx.code.is_empty());
    assert!(ctx.globals.is_empty());
}

#[test]
fn tenth_string_literal_has_two_digit_name() {
    let (mut cctx, mut ctx) = contexts();
    for _ in 0..11 {
        compile::<DefaultBackend>(&mut cctx, &mut ctx, &text("s")).unwrap();
    }
    assert_eq!(cctx.data[9].name, "literal_string_9");
    assert_eq!(cctx.data[10].name, "literal_string_10");
}

#[test]
fn addition_is_lowered_to_float_arithmetic() {
    let (mut cctx, mut ctx) = contexts();
    let node = Operation::Add(operands(number(2.0), number(3.0)));
    let v = compile_op::<DefaultBackend>(&mut cctx, &mut ctx, &node).unwrap();
    assert_eq!(v, Value(2));
    assert_eq!(
        ctx.code,
        vec![
            Instruction::F64const { bits: 2.0f64.to_bits() },
            Instruction::F64const { bits: 3.0f64.to_bits() },
            Instruction::Binary { op: FloatOp::Fadd, left: Value(0), right: Value(1) },
        ]
    );
    assert_eq!(evaluate(&ctx.code, v), 5.0);
}

#[test]
fn four_operators_evaluate_as_float_arithmetic() {
    let cases: Vec<(Operation, FloatOp, f64)> = vec![
        (Operation::Add(operands(number(7.5), number(2.5))), FloatOp::Fadd, 10.0),
        (Operation::Subtract(operands(number(7.5), number(2.5))), FloatOp::Fsub, 5.0),
        (Operation::Multiply(operands(number(7.5), number(2.5))), FloatOp::Fmul, 18.75),
        (Operation::Divide(operands(number(7.5), number(2.5))), FloatOp::Fdiv, 3.0),
    ];
    for (node, op, expected) in cases {
        let (mut cctx, mut ctx) = contexts();
        assert_eq!(operation_kind(&node), Some(op));
        let v = compile::<DefaultBackend>(&mut cctx, &mut ctx, &Node::Operation(node)).unwrap();
        assert_eq!(ctx.code[v.0], Instruction::Binary { op, left: Value(0), right: Value(1) });
        assert_eq!(evaluate(&ctx.code, v), expected);
    }
}

#[test]
fn integer_operands_still_get_float_arithmetic() {
    let (mut cctx, mut ctx) = contexts();
    let node = Operation::Multiply(operands(integer(2), integer(3)));
    compile_op::<DefaultBackend>(&mut cctx, &mut ctx, &node).unwrap();
    assert_eq!(
        ctx.code[2],
        Instruction::Binary { op: FloatOp::Fmul, left: Value(0), right: Value(1) }
    );
}

#[test]
fn other_operators_are_refused_after_their_operands() {
    let (mut cctx, mut ctx) = contexts();
    let node = Operation::Modulo(operands(integer(7), integer(2)));
    assert_eq!(operation_kind(&node), None);
    let r = compile_op::<DefaultBackend>(&mut cctx, &mut ctx, &node);
    assert_eq!(r, Err(LowerError::UnsupportedOperation));
    assert_eq!(ctx.code.len(), 2);
    let node = Node::Operation(Operation::Power(operands(integer(7), integer(2))));
    let r = compile::<DefaultBackend>(&mut cctx, &mut ctx, &node);
    assert_eq!(r, Err(LowerError::UnsupportedOperation));
}

#[test]
fn operands_are_lowered_left_then_right() {
    let (mut cctx, mut ctx) = contexts();
    let node = Operation::Add(operands(text("left"), text("right")));
    compile_op::<DefaultBackend>(&mut cctx, &mut ctx, &node).unwrap();
    assert_eq!(cctx.data[0].contents, b"left\0".to_vec());
    assert_eq!(cctx.data[1].contents, b"right\0".to_vec());
}

#[test]
fn failure_of_left_operand_stops_the_operation() {
    let (mut cctx, mut ctx) = contexts();
    let node = Operation::Add(operands(symbol("missing"), text("right")));
    let r = compile_op::<DefaultBackend>(&mut cctx, &mut ctx, &node);
    assert_eq!(r, Err(LowerError::UnknownSymbol("missing".to_string())));
    assert!(cctx.data.is_empty());
    assert!(ctx.code.is_empty());
}

#[test]
fn nested_operations_share_one_function() {
    let (mut cctx, mut ctx) = contexts();
    let inner = Node::Operation(Operation::Multiply(operands(number(2.0), number(4.0))));
    let node = Operation::Subtract(operands(inner, number(3.0)));
    let v = compile_op::<DefaultBackend>(&mut cctx, &mut ctx, &node).unwrap();
    assert_eq!(v, Value(4));
    assert_eq!(evaluate(&ctx.code, v), 5.0);
}

#[test]
fn call_of_local_function_uses_declared_signature() {
    let (mut cctx, mut ctx) = contexts();
    cctx.add_function(FunctionSignature {
        name: "add".to_string(),
        args: vec![parameter("a", "i32"), parameter("b", "i32")],
        ret: Some("i32".to_string()),
    });
    let node = call("add", vec![integer(2), integer(3)]);
    let sig = resolve_signature::<DefaultBackend>(&cctx, &ctx, &node);
    assert_eq!(sig.params, vec![MachineType::I32, MachineType::I32]);
    assert_eq!(sig.returns, vec![MachineType::I32]);
    let v = compile_call::<DefaultBackend>(&mut cctx, &mut ctx, &node).unwrap();
    assert_eq!(v, Value(2));
    assert_eq!(cctx.declarations.len(), 1);
    assert_eq!(cctx.declarations[0].name, "add");
    assert_eq!(cctx.declarations[0].linkage, Linkage::Import);
    assert_eq!(cctx.declarations[0].signature, sig);
    assert_eq!(ctx.func_refs, vec![FuncId(0)]);
    assert_eq!(
        ctx.code,
        vec![
            Instruction::Iconst { ty: MachineType::I32, imm: 2 },
            Instruction::Iconst { ty: MachineType::I32, imm: 3 },
            Instruction::Call { callee: FuncRef(0), args: vec![Value(0), Value(1)] },
        ]
    );
}

#[test]
fn body_of_add_evaluates_to_five_under_float_rule() {
    let (mut cctx, mut ctx) = contexts();
    let a = compile::<DefaultBackend>(&mut cctx, &mut ctx, &number(2.0)).unwrap();
    let b = compile::<DefaultBackend>(&mut cctx, &mut ctx, &number(3.0)).unwrap();
    ctx.declare_variable(Variable { name: "a".to_string(), value: a, type_: Some("i32".to_string()) });
    ctx.declare_variable(Variable { name: "b".to_string(), value: b, type_: Some("i32".to_string()) });
    let body = Node::Operation(Operation::Add(operands(symbol("a"), symbol("b"))));
    let sum = compile::<DefaultBackend>(&mut cctx, &mut ctx, &body).unwrap();
    let five = compile::<DefaultBackend>(&mut cctx, &mut ctx, &number(5.0)).unwrap();
    assert_eq!(evaluate(&ctx.code, sum), evaluate(&ctx.code, five));
}

#[test]
fn untyped_parameter_of_local_function_gets_pointer_type() {
    let mut cctx = CompilerContext::new(MachineType::I32);
    let ctx = CodegenContext::new();
    cctx.add_function(FunctionSignature {
        name: "f".to_string(),
        args: vec![parameter("a", ""), parameter("b", "f64"), parameter("c", "ptr")],
        ret: None,
    });
    let sig = resolve_signature::<DefaultBackend>(&cctx, &ctx, &call("f", vec![]));
    assert_eq!(sig.params, vec![MachineType::I32, MachineType::F64, MachineType::I32]);
    assert_eq!(sig.returns, vec![MachineType::I32]);
}

#[test]
fn parameter_count_comes_from_the_definition_not_the_call() {
    let (mut cctx, ctx) = contexts();
    cctx.add_function(FunctionSignature {
        name: "g".to_string(),
        args: vec![parameter("a", "i8")],
        ret: Some("f32".to_string()),
    });
    let sig = resolve_signature::<DefaultBackend>(&cctx, &ctx, &call("g", vec![integer(1), integer(2)]));
    assert_eq!(sig.params, vec![MachineType::I8]);
    assert_eq!(sig.returns, vec![MachineType::F32]);
}

#[test]
fn later_definition_of_a_name_is_the_one_called() {
    let (mut cctx, ctx) = contexts();
    cctx.add_function(FunctionSignature {
        name: "h".to_string(),
        args: vec![parameter("a", "i8")],
        ret: None,
    });
    cctx.add_function(FunctionSignature {
        name: "h".to_string(),
        args: vec![parameter("a", "i16"), parameter("b", "i16")],
        ret: None,
    });
    assert_eq!(cctx.find_function("h"), Some(1));
    assert_eq!(cctx.find_function("k"), None);
    let sig = resolve_signature::<DefaultBackend>(&cctx, &ctx, &call("h", vec![]));
    assert_eq!(sig.params, vec![MachineType::I16, MachineType::I16]);
}

#[test]
fn call_of_undeclared_function_with_untyped_variable() {
    let (mut cctx, mut ctx) = contexts();
    let x = compile::<DefaultBackend>(&mut cctx, &mut ctx, &text("hello")).unwrap();
    ctx.declare_variable(Variable { name: "x".to_string(), value: x, type_: None });
    let node = call("puts", vec![symbol("x")]);
    let sig = resolve_signature::<DefaultBackend>(&cctx, &ctx, &node);
    assert_eq!(sig.params, vec![MachineType::I64]);
    assert_eq!(sig.returns, vec![MachineType::I32]);
    let v = compile_call::<DefaultBackend>(&mut cctx, &mut ctx, &node).unwrap();
    assert_eq!(v, Value(1));
    assert_eq!(cctx.declarations[0].name, "puts");
    assert_eq!(cctx.declarations[0].linkage, Linkage::Import);
    assert_eq!(cctx.declarations[0].signature, sig);
    assert_eq!(ctx.code[1], Instruction::Call { callee: FuncRef(0), args: vec![x] });
}

#[test]
fn import_parameter_takes_recorded_type_of_variable() {
    let (cctx, mut ctx) = contexts();
    ctx.declare_variable(Variable {
        name: "n".to_string(),
        value: Value(0),
        type_: Some("f64".to_string()),
    });
    let sig = resolve_signature::<DefaultBackend>(&cctx, &ctx, &call("sqrt", vec![symbol("n")]));
    assert_eq!(sig.params, vec![MachineType::F64]);
    assert_eq!(sig.returns, vec![MachineType::I32]);
    assert_eq!(infer_type_name(&ctx, &symbol("n")), "f64");
}

#[test]
fn import_parameter_defaults_to_pointer() {
    let mut cctx = CompilerContext::new(MachineType::I32);
    let mut ctx = CodegenContext::new();
    cctx.pointer = MachineType::I32;
    ctx.declare_variable(Variable { name: "u".to_string(), value: Value(0), type_: None });
    let node = call("f", vec![symbol("u"), symbol("unknown"), integer(1), text("s")]);
    let sig = resolve_signature::<DefaultBackend>(&cctx, &ctx, &node);
    assert_eq!(sig.params, vec![MachineType::I32; 4]);
    assert_eq!(infer_type_name(&ctx, &symbol("u")), "ptr");
    assert_eq!(infer_type_name(&ctx, &symbol("unknown")), "ptr");
    assert_eq!(infer_type_name(&ctx, &integer(1)), "ptr");
}

#[test]
fn latest_declaration_of_a_variable_is_used() {
    let (cctx, mut ctx) = contexts();
    ctx.declare_variable(Variable {
        name: "v".to_string(),
        value: Value(3),
        type_: Some("i8".to_string()),
    });
    ctx.declare_variable(Variable {
        name: "v".to_string(),
        value: Value(9),
        type_: Some("i64".to_string()),
    });
    assert_eq!(ctx.find_variable("v"), Some(1));
    assert_eq!(compile_symbol(&ctx, "v"), Ok(Value(9)));
    let sig = resolve_signature::<DefaultBackend>(&cctx, &ctx, &call("f", vec![symbol("v")]));
    assert_eq!(sig.params, vec![MachineType::I64]);
}

#[test]
fn unknown_symbol_is_an_error() {
    let ctx = CodegenContext::new();
    assert_eq!(compile_symbol(&ctx, "nope"), Err(LowerError::UnknownSymbol("nope".to_string())));
}

#[test]
fn repeated_call_of_an_import_declares_it_once() {
    let (mut cctx, mut ctx) = contexts();
    let node = call("puts", vec![text("a")]);
    compile_call::<DefaultBackend>(&mut cctx, &mut ctx, &node).unwrap();
    compile_call::<DefaultBackend>(&mut cctx, &mut ctx, &node).unwrap();
    assert_eq!(cctx.declarations.len(), 1);
    assert_eq!(ctx.func_refs, vec![FuncId(0), FuncId(0)]);
    assert_eq!(ctx.code[1], Instruction::Call { callee: FuncRef(0), args: vec![Value(0)] });
    assert_eq!(ctx.code[3], Instruction::Call { callee: FuncRef(1), args: vec![Value(2)] });
}

#[test]
fn call_with_another_signature_is_a_conflict() {
    let (mut cctx, mut ctx) = contexts();
    compile_call::<DefaultBackend>(&mut cctx, &mut ctx, &call("puts", vec![integer(1)])).unwrap();
    let code = ctx.code.len();
    let r = compile_call::<DefaultBackend>(&mut cctx, &mut ctx, &call("puts", vec![integer(1), integer(2)]));
    assert_eq!(r, Err(LowerError::SymbolConflict("puts".to_string())));
    assert_eq!(cctx.declarations.len(), 1);
    assert_eq!(ctx.code.len(), code);
    assert_eq!(ctx.func_refs.len(), 1);
}

#[test]
fn call_of_a_data_object_name_is_a_conflict() {
    let (mut cctx, mut ctx) = contexts();
    compile::<DefaultBackend>(&mut cctx, &mut ctx, &text("a")).unwrap();
    let r = compile_call::<DefaultBackend>(&mut cctx, &mut ctx, &call("literal_string_0", vec![]));
    assert_eq!(r, Err(LowerError::SymbolConflict("literal_string_0".to_string())));
    assert!(cctx.declarations.is_empty());
}

#[test]
fn arguments_are_lowered_left_to_right_after_the_declaration() {
    let (mut cctx, mut ctx) = contexts();
    let inner = Node::Call(call("inner", vec![]));
    let node = call("outer", vec![text("first"), inner, text("second")]);
    let v = compile_call::<DefaultBackend>(&mut cctx, &mut ctx, &node).unwrap();
    assert_eq!(cctx.declarations[0].name, "outer");
    assert_eq!(cctx.declarations[1].name, "inner");
    assert_eq!(cctx.data[0].contents, b"first\0".to_vec());
    assert_eq!(cctx.data[1].contents, b"second\0".to_vec());
    assert_eq!(v, Value(3));
    assert_eq!(
        ctx.code[3],
        Instruction::Call { callee: FuncRef(0), args: vec![Value(0), Value(1), Value(2)] }
    );
    assert_eq!(ctx.code[1], Instruction::Call { callee: FuncRef(1), args: vec![] });
}

#[test]
fn failing_argument_stops_the_call() {
    let (mut cctx, mut ctx) = contexts();
    let bad = Node::Operation(Operation::Modulo(operands(integer(1), integer(2))));
    let node = call("f", vec![integer(0), bad, text("never")]);
    let r = compile_call::<DefaultBackend>(&mut cctx, &mut ctx, &node);
    assert_eq!(r, Err(LowerError::UnsupportedOperation));
    assert_eq!(cctx.declarations.len(), 1);
    assert_eq!(ctx.func_refs.len(), 1);
    assert_eq!(ctx.code.len(), 3);
    assert!(cctx.data.is_empty());
}

#[test]
fn default_backend_resolves_names() {
    let cctx = CompilerContext::new(MachineType::I64);
    assert_eq!(DefaultBackend::ptr(&cctx), MachineType::I64);
    assert_eq!(DefaultBackend::query_type(&cctx, "i32"), MachineType::I32);
    assert_eq!(DefaultBackend::query_type(&cctx, "ptr"), MachineType::I64);
    assert_eq!(DefaultBackend::query_type(&cctx, ""), MachineType::I64);
    assert_eq!(DefaultBackend::query_type(&cctx, "bool"), MachineType::I1);
    assert_eq!(DefaultBackend::query_type(&cctx, "char"), MachineType::I32);
    assert_eq!(DefaultBackend::query_type_with_pointer(MachineType::I16, ""), MachineType::I16);
    assert_eq!(DefaultBackend::query_type_with_pointer(MachineType::I16, "f32"), MachineType::F32);
    assert_eq!(primitive("i8"), Some(MachineType::I8));
    assert_eq!(primitive("i16"), Some(MachineType::I16));
    assert_eq!(primitive("i64"), Some(MachineType::I64));
    assert_eq!(primitive("i128"), Some(MachineType::I128));
    assert_eq!(primitive("f64"), Some(MachineType::F64));
    assert_eq!(primitive("string"), None);
}

#[test]
fn resolving_a_name_twice_gives_the_same_type() {
    let cctx = CompilerContext::new(MachineType::I32);
    for name in ["i8", "i32", "f64", "ptr", "", "anything"] {
        assert_eq!(
            DefaultBackend::query_type(&cctx, name),
            DefaultBackend::query_type(&cctx, name)
        );
        assert_eq!(
            DefaultBackend::query_type_with_pointer(MachineType::I32, name),
            DefaultBackend::query_type_with_pointer(MachineType::I32, name)
        );
    }
}

#[test]
fn machine_types_have_their_widths() {
    assert_eq!(MachineType::I1.bits(), 1);
    assert_eq!(MachineType::I128.bits(), 128);
    assert_eq!(MachineType::F32.bits(), 32);
    assert_eq!(MachineType::pointer(64), Some(MachineType::I64));
    assert_eq!(MachineType::pointer(32), Some(MachineType::I32));
    assert_eq!(MachineType::pointer(16), Some(MachineType::I16));
    assert_eq!(MachineType::pointer(8), None);
}

#[test]
fn signatures_compare_by_their_types() {
    let a = Signature { params: vec![MachineType::I32], returns: vec![MachineType::I32] };
    let b = Signature { params: vec![MachineType::I32], returns: vec![MachineType::I64] };
    assert!(a.same_as(&a.duplicate()));
    assert!(!a.same_as(&b));
    assert!(!a.same_as(&Signature::new()));
}

#[test]
fn fresh_contexts_are_well_formed() {
    let (cctx, ctx) = contexts();
    assert!(cctx.is_well_formed());
    assert!(ctx.is_well_formed(&cctx));
}

#[test]
fn lowering_keeps_the_contexts_well_formed() {
    let (mut cctx, mut ctx) = contexts();
    let x = compile::<DefaultBackend>(&mut cctx, &mut ctx, &text("x")).unwrap();
    ctx.declare_variable(Variable { name: "x".to_string(), value: x, type_: None });
    let inner = Node::Call(call("strlen", vec![symbol("x")]));
    let sum = Node::Operation(Operation::Add(operands(inner, number(1.0))));
    let node = Node::Call(call("print", vec![text("%d"), sum]));
    let v = compile::<DefaultBackend>(&mut cctx, &mut ctx, &node).unwrap();
    assert!(v.0 < ctx.code.len());
    assert!(cctx.is_well_formed());
    assert!(ctx.is_well_formed(&cctx));
    let bad = Node::Call(call("print", vec![symbol("y")]));
    assert!(compile::<DefaultBackend>(&mut cctx, &mut ctx, &bad).is_err());
    assert!(cctx.is_well_formed());
    assert!(ctx.is_well_formed(&cctx));
}

#[test]
fn lowering_only_adds_to_the_contexts() {
    let (mut cctx, mut ctx) = contexts();
    compile::<DefaultBackend>(&mut cctx, &mut ctx, &Node::Call(call("f", vec![text("a")]))).unwrap();
    let code: Vec<String> = ctx.code.iter().map(|i| format!("{:?}", i)).collect();
    let names: Vec<String> = cctx.data.iter().map(|d| d.name.clone()).collect();
    compile::<DefaultBackend>(&mut cctx, &mut ctx, &Node::Call(call("g", vec![text("b")]))).unwrap();
    let later: Vec<String> = ctx.code.iter().map(|i| format!("{:?}", i)).collect();
    assert_eq!(&later[..code.len()], &code[..]);
    assert_eq!(cctx.data[..names.len()].iter().map(|d| d.name.clone()).collect::<Vec<_>>(), names);
    assert_eq!(cctx.declarations[0].name, "f");
    assert_eq!(cctx.declarations[1].name, "g");
}

#[test]
fn ill_formed_contexts_are_recognised() {
    let (mut cctx, mut ctx) = contexts();
    ctx.code.push(Instruction::Binary { op: FloatOp::Fadd, left: Value(0), right: Value(0) });
    assert!(!ctx.is_instruction_well_formed(0));
    assert!(!ctx.is_well_formed(&cctx));
    ctx.code.clear();
    ctx.code.push(Instruction::Call { callee: FuncRef(0), args: vec![] });
    assert!(!ctx.is_well_formed(&cctx));
    ctx.func_refs.push(FuncId(0));
    assert!(ctx.is_instruction_well_formed(0));
    assert!(!ctx.is_well_formed(&cctx));
    let sig = Signature { params: vec![], returns: vec![MachineType::I32] };
    cctx.declare_function("f", Linkage::Import, &sig).unwrap();
    assert!(ctx.is_well_formed(&cctx));
    ctx.code.push(Instruction::Call { callee: FuncRef(0), args: vec![Value(0), Value(1)] });
    assert!(!ctx.is_well_formed(&cctx));
    ctx.code.pop();
    ctx.code.push(Instruction::GlobalValue { ty: MachineType::I64, global: GlobalValue(0) });
    assert!(!ctx.is_well_formed(&cctx));
    ctx.code.pop();
    ctx.globals.push(DataId(0));
    assert!(!ctx.is_well_formed(&cctx));
    ctx.globals.clear();
    ctx.declare_variable(Variable { name: "v".to_string(), value: Value(1), type_: None });
    assert!(!ctx.is_well_formed(&cctx));

    cctx.data_desc.push(1);
    assert!(!cctx.is_well_formed());
    cctx.data_desc.clear();
    assert!(cctx.is_well_formed());
    cctx.define_string("a").unwrap();
    cctx.data[0].name = "f".to_string();
    assert!(!cctx.is_well_formed());
    cctx.data[0].name = "d".to_string();
    assert!(cctx.is_well_formed());
    cctx.define_string("b").unwrap();
    cctx.data[1].name = "d".to_string();
    assert!(!cctx.is_well_formed());
}
