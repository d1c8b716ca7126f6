use qsc::cmd::{RunCommand, RunStage};
use qsc::error::{LinkError, LowerError};
use qsc::keyword::{
    kw_exit, kw_fn, kw_if, kw_let, kw_print_wrapper, AnyKeyword, Architecture, Token,
};
use qsc::text::{decimal_string, joined, same_text};

fn exit_with(code: &str) -> qsc::keyword::TokenKeyword {
    kw_exit().create(Token { value: Some(code.to_string()) })
}

#[test]
fn keywords_have_their_ids_and_names() {
    let exit = kw_exit();
    assert_eq!((exit.id, exit.name.as_str(), exit.pretty_name.as_str()), (0, "exit", "Exit"));
    assert_eq!(exit.documentation_key, "#/doc/core/exit");
    assert_eq!(exit.value, None);
    let f = kw_fn();
    assert_eq!((f.id, f.name.as_str(), f.pretty_name.as_str()), (1, "fn", "Function"));
    assert_eq!(f.documentation_key, "#/doc/core/fn");
    let p = kw_print_wrapper();
    assert_eq!((p.id, p.name.as_str()), (2, "print_wrap"));
    assert_eq!(p.pretty_name, "Print Wrapper");
    assert_eq!(p.documentation_key, "#/doc/core/fn_wrappers/print");
    let i = kw_if();
    assert_eq!((i.id, i.name.as_str(), i.pretty_name.as_str()), (3, "if", "Conditional"));
    assert_eq!(i.documentation_key, "#/doc/core/if");
    let l = kw_let();
    assert_eq!((l.id, l.name.as_str(), l.pretty_name.as_str()), (4, "let", "Variable"));
    assert_eq!(l.documentation_key, "#/doc/core/let");
}

#[test]
fn create_keeps_the_keyword_and_holds_the_value() {
    let used = kw_let().create(("x".to_string(), vec![Token { value: Some("1".to_string()) }]));
    assert_eq!(used.id, 4);
    assert_eq!(used.name, "let");
    assert_eq!(used.pretty_name, "Variable");
    assert_eq!(used.documentation_key, "#/doc/core/let");
    assert_eq!(used.value, Some(("x".to_string(), vec![Token { value: Some("1".to_string()) }])));
    let any = AnyKeyword::Variable(used);
    assert!(matches!(any, AnyKeyword::Variable(_)));
}

#[test]
fn exit_on_x86_64_is_a_syscall() {
    let (data, text) = exit_with("7").to_asm(Architecture::X86_64);
    assert_eq!(data, "");
    assert_eq!(text, "    mov rax, 60\n    mov rdi, 7\n    syscall\n");
}

#[test]
fn exit_on_arm_is_a_supervisor_call() {
    let expected = "    mov w8, #93\n    mov x0, #42\n    svc #0\n";
    let (data, text) = exit_with("42").to_asm(Architecture::AARCH64);
    assert_eq!(data, "");
    assert_eq!(text, expected);
    let (_, text) = exit_with("42").to_asm(Architecture::ARM);
    assert_eq!(text, expected);
}

#[test]
fn exit_without_a_value_and_other_keywords_give_no_assembly() {
    assert_eq!(kw_exit().to_asm(Architecture::X86_64), (String::new(), String::new()));
    let mut other = exit_with("1");
    other.id = 9;
    assert_eq!(other.to_asm(Architecture::X86_64), (String::new(), String::new()));
    let block = kw_if().create((vec![], vec![]));
    assert_eq!(block.to_asm(Architecture::ARM), (String::new(), String::new()));
    let variable = kw_let().create(("x".to_string(), vec![]));
    assert_eq!(variable.to_asm(Architecture::X86_64), (String::new(), String::new()));
}

#[test]
fn run_command_stops_at_the_first_requested_dump() {
    let mut command = RunCommand { file: "main.qs".to_string(), dump_tokens: false, dump_ast: false };
    assert_eq!(command.stage(), RunStage::Execute);
    command.dump_ast = true;
    assert_eq!(command.stage(), RunStage::DumpAst);
    command.dump_tokens = true;
    assert_eq!(command.stage(), RunStage::DumpTokens);
    command.dump_ast = false;
    assert_eq!(command.stage(), RunStage::DumpTokens);
}

#[test]
fn decimal_numerals() {
    assert_eq!(decimal_string(0), "0");
    assert_eq!(decimal_string(9), "9");
    assert_eq!(decimal_string(10), "10");
    assert_eq!(decimal_string(12345), "12345");
    assert_eq!(decimal_string(1_000_000), "1000000");
}

#[test]
fn text_helpers() {
    assert!(same_text("abc", "abc"));
    assert!(!same_text("abc", "abd"));
    assert!(!same_text("abc", "ab"));
    assert_eq!(joined("ab", "cd"), "abcd");
    assert_eq!(joined("", ""), "");
}

#[test]
fn failures_are_put_in_words() {
    assert_eq!(LowerError::UnsupportedOperation.message(), "unsupported operation");
    assert_eq!(
        LowerError::SymbolConflict("puts".to_string()).message(),
        "symbol conflict: puts"
    );
    assert_eq!(LowerError::UnknownSymbol("x".to_string()).message(), "unknown symbol: x");
    assert_eq!(LinkError::NotImplemented.message(), "not implemented");
}

#[test]
fn keywords_can_be_cloned() {
    let used = exit_with("3");
    let copy = used.clone();
    assert_eq!(copy, used);
    assert_eq!(copy.to_asm(Architecture::X86_64), used.to_asm(Architecture::X86_64));
}
