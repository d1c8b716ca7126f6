//! The keywords of the direct-to-assembly path: `exit`, `fn`, the print
//! wrapper, `if` and `let`.

use vstd::prelude::*;

verus! {

/// The instruction set that assembly text is written for.
#[derive(Clone, Copy, Debug, PartialEq, Eq, Structural)]
pub enum Architecture {
    X86_64,
    ARM,
    AARCH64,
}

/// A token of the source text, with the text of its value where it has one.
#[derive(Clone, Debug, PartialEq, Eq)]
pub struct Token {
    pub value: Option<String>,
}

/// What a print statement prints.
#[derive(Clone, Debug, PartialEq, Eq)]
pub struct Print {
    pub tokens: Vec<Token>,
}

pub type TokenKeyword = Keyword<Token>;

pub type PrintKeyword = Keyword<Print>;

pub type FunctionKeyword = Keyword<(String, Vec<Token>, Vec<AnyKeyword>)>;

pub type BlockKeyword = Keyword<(Vec<Token>, Vec<AnyKeyword>)>;

pub type VariableKeyword = Keyword<(String, Vec<Token>)>;

pub type ArrayKeyword = Keyword<(String, usize)>;

#[derive(Debug, PartialEq, Eq)]
pub enum AnyKeyword {
    Token(TokenKeyword),
    Print(PrintKeyword),
    Function(FunctionKeyword),
    Block(BlockKeyword),
    Variable(VariableKeyword),
}

/// A keyword: its number, its name, its name as shown to people, the key
/// under which its documentation is found, and the value it was used with.
#[derive(Debug, Clone, PartialEq, Eq)]
pub struct Keyword<T> {
    pub id: i8,
    pub name: String,
    pub pretty_name: String,
    pub documentation_key: String,
    pub value: Option<T>,
}

impl<T> Keyword<T> {
    /// A use of this keyword with a value: the same keyword, holding
    /// `value`.
    pub fn create(&self, value: T) -> (keyword: Keyword<T>)
        ensures
            keyword.id == self.id,
            keyword.name == self.name,
            keyword.pretty_name == self.pretty_name,
            keyword.documentation_key == self.documentation_key,
            keyword.value == Some(value),
    {
        Keyword {
            id: self.id,
            name: self.name.clone(),
            pretty_name: self.pretty_name.clone(),
            documentation_key: self.documentation_key.clone(),
            value: Some(value),
        }
    }
}

/// The `exit` keyword.
pub fn kw_exit() -> (keyword: TokenKeyword)
    ensures
        keyword.id == 0,
        keyword.name@ == "exit"@,
        keyword.pretty_name@ == "Exit"@,
        keyword.documentation_key@ == "#/doc/core/exit"@,
        keyword.value is None,
{
    Keyword {
        id: 0,
        name: String::from_str("exit"),
        pretty_name: String::from_str("Exit"),
        documentation_key: String::from_str("#/doc/core/exit"),
        value: None,
    }
}

/// The `fn` keyword, which defines a function.
pub fn kw_fn() -> (keyword: FunctionKeyword)
    ensures
        keyword.id == 1,
        keyword.name@ == "fn"@,
        keyword.pretty_name@ == "Function"@,
        keyword.documentation_key@ == "#/doc/core/fn"@,
        keyword.value is None,
{
    Keyword {
        id: 1,
        name: String::from_str("fn"),
        pretty_name: String::from_str("Function"),
        documentation_key: String::from_str("#/doc/core/fn"),
        value: None,
    }
}

/// The keyword that wraps a print statement.
pub fn kw_print_wrapper() -> (keyword: PrintKeyword)
    ensures
        keyword.id == 2,
        keyword.name@ == "print_wrap"@,
        keyword.pretty_name@ == "Print Wrapper"@,
        keyword.documentation_key@ == "#/doc/core/fn_wrappers/print"@,
        keyword.value is None,
{
    Keyword {
        id: 2,
        name: String::from_str("print_wrap"),
        pretty_name: String::from_str("Print Wrapper"),
        documentation_key: String::from_str("#/doc/core/fn_wrappers/print"),
        value: None,
    }
}

/// The `if` keyword.
pub fn kw_if() -> (keyword: BlockKeyword)
    ensures
        keyword.id == 3,
        keyword.name@ == "if"@,
        keyword.pretty_name@ == "Conditional"@,
        keyword.documentation_key@ == "#/doc/core/if"@,
        keyword.value is None,
{
    Keyword {
        id: 3,
        name: String::from_str("if"),
        pretty_name: String::from_str("Conditional"),
        documentation_key: String::from_str("#/doc/core/if"),
        value: None,
    }
}

/// The `let` keyword.
pub fn kw_let() -> (keyword: VariableKeyword)
    ensures
        keyword.id == 4,
        keyword.name@ == "let"@,
        keyword.pretty_name@ == "Variable"@,
        keyword.documentation_key@ == "#/doc/core/let"@,
        keyword.value is None,
{
    Keyword {
        id: 4,
        name: String::from_str("let"),
        pretty_name: String::from_str("Variable"),
        documentation_key: String::from_str("#/doc/core/let"),
        value: None,
    }
}

/// The text section that ends the program with the given exit code.
pub open spec fn exit_text(arch: Architecture, code: Seq<char>) -> Seq<char> {
    if arch == Architecture::ARM || arch == Architecture::AARCH64 {
        "    mov w8, #93\n"@ + "    mov x0, #"@ + code + "\n"@ + "    svc #0\n"@
    } else {
        "    mov rax, 60\n"@ + "    mov rdi, "@ + code + "\n"@ + "    syscall\n"@
    }
}

/// The text section of a token keyword: the exit sequence for `exit` used
/// with a value, and nothing for any other.
pub open spec fn token_keyword_text(keyword: TokenKeyword, arch: Architecture) -> Seq<char> {
    if keyword.id == 0 && keyword.value is Some {
        exit_text(arch, keyword.value.unwrap().value.unwrap()@)
    } else {
        Seq::empty()
    }
}

impl Keyword<Token> {
    /// The data and text sections of assembly for this keyword. The token
    /// of an `exit` must hold the exit code.
    pub fn to_asm(&self, arch: Architecture) -> (sections: (String, String))
        requires
            self.id == 0 && self.value is Some ==> self.value.unwrap().value is Some,
        ensures
            sections.0@ == Seq::<char>::empty(),
            sections.1@ == token_keyword_text(*self, arch),
    {
        let mut buf = String::new();
        if self.id == 0 {
            if let Some(value) = &self.value {
                let code = match &value.value {
                    Some(code) => code,
                    None => {
                        return (String::new(), buf);
                    },
                };
                match arch {
                    Architecture::ARM | Architecture::AARCH64 => {
                        buf.append("    mov w8, #93\n");
                        buf.append("    mov x0, #");
                        buf.append(code.as_str());
                        buf.append("\n");
                        buf.append("    svc #0\n");
                    },
                    _ => {
                        buf.append("    mov rax, 60\n");
                        buf.append("    mov rdi, ");
                        buf.append(code.as_str());
                        buf.append("\n");
                        buf.append("    syscall\n");
                    },
                }
                assert(buf@ =~= token_keyword_text(*self, arch));
            }
        }
        (String::new(), buf)
    }
}

impl Keyword<(Vec<Token>, Vec<AnyKeyword>)> {
    /// A block contributes no assembly of its own.
    pub fn to_asm(&self, arch: Architecture) -> (sections: (String, String))
        ensures
            sections.0@ == Seq::<char>::empty(),
            sections.1@ == Seq::<char>::empty(),
    {
        (String::new(), String::new())
    }
}

impl Keyword<(String, Vec<Token>)> {
    /// A variable contributes no assembly of its own.
    pub fn to_asm(&self, arch: Architecture) -> (sections: (String, String))
        ensures
            sections.0@ == Seq::<char>::empty(),
            sections.1@ == Seq::<char>::empty(),
    {
        (String::new(), String::new())
    }
}

} // verus!
