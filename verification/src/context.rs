//! The two pieces of state that lowering works on: the module context, one
//! per compilation unit, and the function context, one per function body.

use vstd::prelude::*;
use crate::ast::FunctionSignature;
use crate::error::{LowerError, LowerFailure};
use crate::ir::{
    last_index_of, lemma_last_index_of, DataId, FuncId, FuncRef, GlobalValue, Instruction,
    InstructionView, Value,
};
use crate::machine::{Linkage, MachineType, Signature, SigView};
use crate::text::{decimal, decimal_string, joined, same_text};

verus! {

/// A function that the module has declared as callable.
#[derive(Debug, PartialEq, Eq)]
pub struct FunctionDeclaration {
    pub name: String,
    pub linkage: Linkage,
    pub signature: Signature,
}

/// The mathematical content of a [`FunctionDeclaration`].
pub struct DeclarationView {
    pub name: Seq<char>,
    pub linkage: Linkage,
    pub signature: SigView,
}

impl View for FunctionDeclaration {
    type V = DeclarationView;

    open spec fn view(&self) -> DeclarationView {
        DeclarationView { name: self.name@, linkage: self.linkage, signature: self.signature@ }
    }
}

/// A named buffer of bytes that the module defines.
#[derive(Debug, PartialEq, Eq)]
pub struct DataObject {
    pub name: String,
    pub linkage: Linkage,
    pub writable: bool,
    pub contents: Vec<u8>,
}

/// The mathematical content of a [`DataObject`].
pub struct DataView {
    pub name: Seq<char>,
    pub linkage: Linkage,
    pub writable: bool,
    pub contents: Seq<u8>,
}

impl View for DataObject {
    type V = DataView;

    open spec fn view(&self) -> DataView {
        DataView {
            name: self.name@,
            linkage: self.linkage,
            writable: self.writable,
            contents: self.contents@,
        }
    }
}

/// A local variable of the function being lowered: its current value and the
/// type name it was declared with, if any.
#[derive(Clone, Debug, PartialEq, Eq)]
pub struct Variable {
    pub name: String,
    pub value: Value,
    pub type_: Option<String>,
}

/// The module context: the state of one compilation unit.
#[derive(Debug, PartialEq, Eq)]
pub struct CompilerContext {
    /// The native pointer type of the target.
    pub pointer: MachineType,
    /// The functions defined in the unit, with their declared signatures.
    pub functions: Vec<FunctionSignature>,
    /// The functions declared as callable, in the order of their ids.
    pub declarations: Vec<FunctionDeclaration>,
    /// The data objects defined so far, in the order of their ids.
    pub data: Vec<DataObject>,
    /// The bytes of the data object being defined; empty between definitions.
    pub data_desc: Vec<u8>,
}

/// The mathematical content of a [`CompilerContext`].
pub struct ModuleView {
    pub pointer: MachineType,
    pub functions: Seq<FunctionSignature>,
    pub declarations: Seq<DeclarationView>,
    pub data: Seq<DataView>,
    pub data_desc: Seq<u8>,
}

/// The outcome of declaring a function in a module.
pub struct Declared {
    pub module: ModuleView,
    pub result: Result<FuncId, LowerFailure>,
}

/// The outcome of defining a data object in a module.
pub struct Defined {
    pub module: ModuleView,
    pub result: Result<DataId, LowerFailure>,
}

/// The characters of `literal_string_`, the stem of the names given to
/// string literals.
pub open spec fn literal_stem() -> Seq<char> {
    seq![
        'l', 'i', 't', 'e', 'r', 'a', 'l', '_', 's', 't', 'r', 'i', 'n', 'g', '_',
    ]
}

/// The name of the data object that holds the string literal defined when
/// the module already has `count` data objects.
pub open spec fn literal_name(count: nat) -> Seq<char> {
    literal_stem() + decimal(count)
}

/// The bytes stored for a string literal: its UTF-8 encoding and a
/// terminating zero.
pub open spec fn literal_bytes(text: Seq<char>) -> Seq<u8> {
    vstd::utf8::encode_utf8(text).push(0u8)
}

impl ModuleView {
    /// Whether the module is small enough to be held in memory, so that
    /// every id in it is a machine integer.
    pub open spec fn representable(self) -> bool {
        self.declarations.len() <= usize::MAX && self.data.len() <= usize::MAX
    }

    /// Whether this module is what `earlier` has grown into: the same
    /// target and definitions, and every declaration and data object of
    /// `earlier` still in its place.
    pub open spec fn extends(self, earlier: ModuleView) -> bool {
        &&& self.pointer == earlier.pointer
        &&& self.functions == earlier.functions
        &&& earlier.declarations.len() <= self.declarations.len()
        &&& forall|i: int|
            0 <= i < earlier.declarations.len() ==> self.declarations[i]
                == #[trigger] earlier.declarations[i]
        &&& earlier.data.len() <= self.data.len()
        &&& forall|i: int|
            0 <= i < earlier.data.len() ==> self.data[i] == #[trigger] earlier.data[i]
    }

    /// Whether every name is declared once: no two data objects and no two
    /// declarations share a name, no name is both, and no bytes are left
    /// over from the definition of a data object.
    pub open spec fn well_formed(self) -> bool {
        &&& forall|i: int, j: int|
            0 <= i < j < self.data.len() ==> (#[trigger] self.data[i]).name
                != (#[trigger] self.data[j]).name
        &&& forall|i: int, j: int|
            0 <= i < j < self.declarations.len() ==> (#[trigger] self.declarations[i]).name
                != (#[trigger] self.declarations[j]).name
        &&& forall|i: int, j: int|
            0 <= i < self.data.len() && 0 <= j < self.declarations.len() ==> (
            #[trigger] self.data[i]).name != (#[trigger] self.declarations[j]).name
        &&& self.data_desc.len() == 0
    }

    pub open spec fn function_names(self) -> Seq<Seq<char>> {
        Seq::new(self.functions.len(), |i: int| self.functions[i].name@)
    }

    pub open spec fn declaration_names(self) -> Seq<Seq<char>> {
        Seq::new(self.declarations.len(), |i: int| self.declarations[i].name)
    }

    pub open spec fn data_names(self) -> Seq<Seq<char>> {
        Seq::new(self.data.len(), |i: int| self.data[i].name)
    }

    /// The position of the definition that a call of `name` refers to: the
    /// one recorded last under that name.
    pub open spec fn function_index(self, name: Seq<char>) -> Option<int> {
        last_index_of(self.function_names(), name)
    }

    /// The position of the declaration of `name`.
    pub open spec fn declaration_index(self, name: Seq<char>) -> Option<int> {
        last_index_of(self.declaration_names(), name)
    }

    /// The position of the data object called `name`.
    pub open spec fn data_index(self, name: Seq<char>) -> Option<int> {
        last_index_of(self.data_names(), name)
    }

    /// The module after a function definition has been recorded.
    pub open spec fn with_function(self, function: FunctionSignature) -> ModuleView {
        ModuleView { functions: self.functions.push(function), ..self }
    }

    /// Declaring a function. A name that a data object holds, or that is
    /// declared with another signature, is a conflict and leaves the module
    /// as it was. A name declared with the same signature keeps its id and
    /// the linkage it was first declared with. A new name gets the next id.
    pub open spec fn declare_function(
        self,
        name: Seq<char>,
        linkage: Linkage,
        signature: SigView,
    ) -> Declared {
        if self.data_index(name) is Some {
            Declared { module: self, result: Err(LowerFailure::SymbolConflict(name)) }
        } else {
            match self.declaration_index(name) {
                Some(i) => if self.declarations[i].signature == signature {
                    Declared { module: self, result: Ok(FuncId(i as usize)) }
                } else {
                    Declared { module: self, result: Err(LowerFailure::SymbolConflict(name)) }
                },
                None => Declared {
                    module: ModuleView {
                        declarations: self.declarations.push(
                            DeclarationView { name, linkage, signature },
                        ),
                        ..self
                    },
                    result: Ok(FuncId(self.declarations.len() as usize)),
                },
            }
        }
    }

    /// Defining the data object of a string literal. Its name is made from
    /// the number of data objects that the module has. Where that name is
    /// taken the module stays as it was. Otherwise the module gains an
    /// exported, read-only object with the literal's bytes, and the buffer
    /// used to build it is empty again.
    pub open spec fn define_string(self, text: Seq<char>) -> Defined {
        let name = literal_name(self.data.len());
        if self.data_index(name) is Some || self.declaration_index(name) is Some {
            Defined { module: self, result: Err(LowerFailure::SymbolConflict(name)) }
        } else {
            Defined {
                module: ModuleView {
                    data: self.data.push(
                        DataView {
                            name,
                            linkage: Linkage::Export,
                            writable: false,
                            contents: literal_bytes(text),
                        },
                    ),
                    data_desc: Seq::empty(),
                    ..self
                },
                result: Ok(DataId(self.data.len() as usize)),
            }
        }
    }
}

impl View for CompilerContext {
    type V = ModuleView;

    open spec fn view(&self) -> ModuleView {
        ModuleView {
            pointer: self.pointer,
            functions: self.functions@,
            declarations: Seq::new(self.declarations@.len(), |i: int| self.declarations@[i]@),
            data: Seq::new(self.data@.len(), |i: int| self.data@[i]@),
            data_desc: self.data_desc@,
        }
    }
}

/// Maps the error of a result to its mathematical content.
pub open spec fn outcome<T>(r: Result<T, LowerError>) -> Result<T, LowerFailure> {
    match r {
        Ok(v) => Ok(v),
        Err(e) => Err(e@),
    }
}

impl CompilerContext {
    /// The content of a module context is always representable.
    pub proof fn lemma_representable(&self)
        ensures
            self@.representable(),
    {
        assert(self.declarations.len() <= usize::MAX);
        assert(self.data.len() <= usize::MAX);
    }

    /// An empty module for a target with the given pointer type.
    pub fn new(pointer: MachineType) -> (cctx: CompilerContext)
        ensures
            cctx@.pointer == pointer,
            cctx@.functions.len() == 0,
            cctx@.declarations.len() == 0,
            cctx@.data.len() == 0,
            cctx@.data_desc.len() == 0,
            cctx@.well_formed(),
    {
        CompilerContext {
            pointer,
            functions: Vec::new(),
            declarations: Vec::new(),
            data: Vec::new(),
            data_desc: Vec::new(),
        }
    }

    /// Records the declared signature of a function defined in the unit.
    /// Entries are only ever added; a later entry of the same name is the
    /// one that calls refer to.
    pub fn add_function(&mut self, function: FunctionSignature)
        ensures
            final(self)@ =~= old(self)@.with_function(function),
            old(self)@.well_formed() ==> final(self)@.well_formed(),
    {
        self.functions.push(function);
    }

    /// Finds the definition that a call of `name` refers to.
    pub fn find_function(&self, name: &str) -> (found: Option<usize>)
        ensures
            found is Some <==> self@.function_index(name@) is Some,
            found matches Some(i) ==> self@.function_index(name@) == Some(i as int) && i
                < self.functions.len() && self.functions[i as int].name@ == name@,
    {
        let ghost names = self@.function_names();
        let mut i = self.functions.len();
        assert(names.take(i as int) =~= names);
        while i > 0
            invariant
                i <= self.functions.len(),
                names == self@.function_names(),
                last_index_of(names, name@) == last_index_of(names.take(i as int), name@),
            decreases i,
        {
            i -= 1;
            assert(names.take(i + 1).last() == self.functions[i as int].name@);
            if same_text(self.functions[i].name.as_str(), name) {
                return Some(i);
            }
            assert(names.take(i + 1).drop_last() =~= names.take(i as int));
        }
        assert(names.take(0).len() == 0);
        None
    }

    /// Finds the declaration of `name`.
    pub fn find_declaration(&self, name: &str) -> (found: Option<usize>)
        ensures
            found is Some <==> self@.declaration_index(name@) is Some,
            found matches Some(i) ==> self@.declaration_index(name@) == Some(i as int) && i
                < self.declarations.len(),
    {
        let ghost names = self@.declaration_names();
        let mut i = self.declarations.len();
        assert(names.take(i as int) =~= names);
        while i > 0
            invariant
                i <= self.declarations.len(),
                names == self@.declaration_names(),
                last_index_of(names, name@) == last_index_of(names.take(i as int), name@),
            decreases i,
        {
            i -= 1;
            assert(names.take(i + 1).last() == self.declarations[i as int].name@);
            if same_text(self.declarations[i].name.as_str(), name) {
                return Some(i);
            }
            assert(names.take(i + 1).drop_last() =~= names.take(i as int));
        }
        assert(names.take(0).len() == 0);
        None
    }

    /// Finds the data object called `name`.
    pub fn find_data(&self, name: &str) -> (found: Option<usize>)
        ensures
            found is Some <==> self@.data_index(name@) is Some,
            found matches Some(i) ==> self@.data_index(name@) == Some(i as int) && i
                < self.data.len(),
    {
        let ghost names = self@.data_names();
        let mut i = self.data.len();
        assert(names.take(i as int) =~= names);
        while i > 0
            invariant
                i <= self.data.len(),
                names == self@.data_names(),
                last_index_of(names, name@) == last_index_of(names.take(i as int), name@),
            decreases i,
        {
            i -= 1;
            assert(names.take(i + 1).last() == self.data[i as int].name@);
            if same_text(self.data[i].name.as_str(), name) {
                return Some(i);
            }
            assert(names.take(i + 1).drop_last() =~= names.take(i as int));
        }
        assert(names.take(0).len() == 0);
        None
    }

    /// Checks that every name is declared once and that no bytes are left
    /// over from a definition.
    pub fn is_well_formed(&self) -> (ok: bool)
        ensures
            ok == self@.well_formed(),
    {
        if self.data_desc.len() != 0 {
            return false;
        }
        let mut j: usize = 0;
        while j < self.data.len()
            invariant
                j <= self.data.len(),
                self@.data_desc.len() == 0,
                forall|a: int|
                    0 <= a < j ==> self@.data_index(#[trigger] self@.data_names()[a]) == Some(a),
                forall|a: int|
                    0 <= a < j ==> self@.declaration_index(#[trigger] self@.data_names()[a])
                        is None,
            decreases self.data.len() - j,
        {
            let name = self.data[j].name.as_str();
            proof {
                assert(self@.data_names()[j as int] == name@);
                lemma_last_index_of(self@.data_names(), name@);
                lemma_last_index_of(self@.declaration_names(), name@);
            }
            match self.find_data(name) {
                Some(k) => {
                    if k != j {
                        proof {
                            assert(self@.data[j as int].name == self@.data[k as int].name);
                        }
                        return false;
                    }
                },
                None => {
                    return false;
                },
            }
            match self.find_declaration(name) {
                Some(b) => {
                    proof {
                        assert(self@.data[j as int].name == self@.declarations[b as int].name);
                    }
                    return false;
                },
                None => {},
            }
            j += 1;
        }
        let mut j: usize = 0;
        while j < self.declarations.len()
            invariant
                j <= self.declarations.len(),
                self@.data_desc.len() == 0,
                forall|a: int|
                    0 <= a < self.data.len() ==> self@.data_index(
                        #[trigger] self@.data_names()[a],
                    ) == Some(a),
                forall|a: int|
                    0 <= a < self.data.len() ==> self@.declaration_index(
                        #[trigger] self@.data_names()[a],
                    ) is None,
                forall|a: int|
                    0 <= a < j ==> self@.declaration_index(
                        #[trigger] self@.declaration_names()[a],
                    ) == Some(a),
            decreases self.declarations.len() - j,
        {
            let name = self.declarations[j].name.as_str();
            proof {
                assert(self@.declaration_names()[j as int] == name@);
                lemma_last_index_of(self@.declaration_names(), name@);
            }
            match self.find_declaration(name) {
                Some(k) => {
                    if k != j {
                        proof {
                            assert(self@.declarations[j as int].name
                                == self@.declarations[k as int].name);
                        }
                        return false;
                    }
                },
                None => {
                    return false;
                },
            }
            j += 1;
        }
        proof {
            let m = self@;
            assert forall|a: int, b: int| 0 <= a < b < m.data.len() implies (
            #[trigger] m.data[a]).name != (#[trigger] m.data[b]).name by {
                lemma_last_index_of(m.data_names(), m.data_names()[a]);
                assert(m.data_names()[b] == m.data[b].name);
            }
            assert forall|a: int, b: int| 0 <= a < b < m.declarations.len() implies (
            #[trigger] m.declarations[a]).name != (#[trigger] m.declarations[b]).name by {
                lemma_last_index_of(m.declaration_names(), m.declaration_names()[a]);
                assert(m.declaration_names()[b] == m.declarations[b].name);
            }
            assert forall|a: int, b: int|
                0 <= a < m.data.len() && 0 <= b < m.declarations.len() implies (
            #[trigger] m.data[a]).name != (#[trigger] m.declarations[b]).name by {
                lemma_last_index_of(m.declaration_names(), m.data_names()[a]);
                assert(m.declaration_names()[b] == m.declarations[b].name);
            }
        }
        true
    }

    /// Declares `name` as a callable function with the given signature.
    /// Declaring a name again with the same signature gives the id it
    /// already has.
    pub fn declare_function(&mut self, name: &str, linkage: Linkage, signature: &Signature) -> (r:
        Result<FuncId, LowerError>)
        ensures
            final(self)@ =~= old(self)@.declare_function(name@, linkage, signature@).module,
            outcome(r) == old(self)@.declare_function(name@, linkage, signature@).result,
    {
        if self.find_data(name).is_some() {
            return Err(LowerError::SymbolConflict(String::from_str(name)));
        }
        match self.find_declaration(name) {
            Some(i) => {
                if self.declarations[i].signature.same_as(signature) {
                    Ok(FuncId(i))
                } else {
                    Err(LowerError::SymbolConflict(String::from_str(name)))
                }
            },
            None => {
                let id = self.declarations.len();
                self.declarations.push(
                    FunctionDeclaration {
                        name: String::from_str(name),
                        linkage,
                        signature: signature.duplicate(),
                    },
                );
                assert(self@.declarations =~= old(self)@.declarations.push(
                    DeclarationView { name: name@, linkage, signature: signature@ },
                ));
                assert(self@.data =~= old(self)@.data);
                Ok(FuncId(id))
            },
        }
    }

    /// Defines the data object of a string literal and gives its id.
    pub fn define_string(&mut self, text: &str) -> (r: Result<DataId, LowerError>)
        ensures
            final(self)@ =~= old(self)@.define_string(text@).module,
            outcome(r) == old(self)@.define_string(text@).result,
    {
        proof {
            reveal_strlit("literal_string_");
        }
        let id = self.data.len();
        let number = decimal_string(id);
        let name = joined("literal_string_", number.as_str());
        assert(name@ =~= literal_name(id as nat));
        if self.find_data(name.as_str()).is_some() || self.find_declaration(
            name.as_str(),
        ).is_some() {
            return Err(LowerError::SymbolConflict(name));
        }
        self.data_desc = text.as_bytes_vec();
        self.data_desc.push(0u8);
        let mut contents: Vec<u8> = Vec::new();
        core::mem::swap(&mut contents, &mut self.data_desc);
        self.data.push(DataObject { name, linkage: Linkage::Export, writable: false, contents });
        assert(self@.data =~= old(self)@.data.push(
            DataView {
                name: literal_name(id as nat),
                linkage: Linkage::Export,
                writable: false,
                contents: literal_bytes(text@),
            },
        ));
        assert(self@.declarations =~= old(self)@.declarations);
        Ok(DataId(id))
    }
}

/// The function context: the state of the function body being lowered.
#[derive(Debug, PartialEq, Eq)]
pub struct CodegenContext {
    /// The instructions emitted so far, in order. The instruction at
    /// position `i` defines the value `Value(i)`.
    pub code: Vec<Instruction>,
    /// The variables declared so far. The entry declared last under a name
    /// is the one that the name refers to.
    pub vars: Vec<Variable>,
    /// The declared functions bound into this body, in the order of their
    /// references.
    pub func_refs: Vec<FuncId>,
    /// The data objects bound into this body, in the order of their
    /// references.
    pub globals: Vec<DataId>,
}

/// The mathematical content of a [`CodegenContext`].
pub struct FunctionView {
    pub code: Seq<InstructionView>,
    pub vars: Seq<Variable>,
    pub func_refs: Seq<FuncId>,
    pub globals: Seq<DataId>,
}

impl FunctionView {
    /// Whether the function is small enough to be held in memory, so that
    /// every value and reference in it is a machine integer.
    pub open spec fn representable(self) -> bool {
        &&& self.code.len() <= usize::MAX
        &&& self.func_refs.len() <= usize::MAX
        &&& self.globals.len() <= usize::MAX
    }

    /// Whether this function is what `earlier` has grown into: the same
    /// variables, and every instruction and binding of `earlier` still in
    /// its place.
    pub open spec fn extends(self, earlier: FunctionView) -> bool {
        &&& self.vars == earlier.vars
        &&& earlier.code.len() <= self.code.len()
        &&& forall|i: int|
            0 <= i < earlier.code.len() ==> self.code[i] == #[trigger] earlier.code[i]
        &&& earlier.func_refs.len() <= self.func_refs.len()
        &&& forall|i: int|
            0 <= i < earlier.func_refs.len() ==> self.func_refs[i]
                == #[trigger] earlier.func_refs[i]
        &&& earlier.globals.len() <= self.globals.len()
        &&& forall|i: int|
            0 <= i < earlier.globals.len() ==> self.globals[i] == #[trigger] earlier.globals[i]
    }

    /// Whether the instruction at a position uses only what exists when it
    /// runs: values defined before it, and functions and data that the body
    /// has bound.
    pub open spec fn instruction_well_formed(self, at: int) -> bool {
        match self.code[at] {
            InstructionView::Iconst { .. } => true,
            InstructionView::F64const { .. } => true,
            InstructionView::Binary { left, right, .. } => left.0 < at && right.0 < at,
            InstructionView::GlobalValue { global, .. } => global.0 < self.globals.len(),
            InstructionView::Call { callee, args } => callee.0 < self.func_refs.len()
                && forall|k: int| 0 <= k < args.len() ==> (#[trigger] args[k]).0 < at,
        }
    }

    /// Whether the function is well formed in the module `m`: every
    /// instruction is, every binding refers to something that `m` holds,
    /// and every variable holds a value that is defined.
    pub open spec fn well_formed(self, m: ModuleView) -> bool {
        &&& forall|i: int| 0 <= i < self.code.len() ==> #[trigger] self.instruction_well_formed(i)
        &&& forall|i: int|
            0 <= i < self.func_refs.len() ==> (#[trigger] self.func_refs[i]).0
                < m.declarations.len()
        &&& forall|i: int|
            0 <= i < self.globals.len() ==> (#[trigger] self.globals[i]).0 < m.data.len()
        &&& forall|i: int|
            0 <= i < self.vars.len() ==> (#[trigger] self.vars[i]).value.0 < self.code.len()
    }

    pub open spec fn variable_names(self) -> Seq<Seq<char>> {
        Seq::new(self.vars.len(), |i: int| self.vars[i].name@)
    }

    /// The position of the variable that `name` refers to.
    pub open spec fn variable_index(self, name: Seq<char>) -> Option<int> {
        last_index_of(self.variable_names(), name)
    }

    /// The value that the next emitted instruction defines.
    pub open spec fn next_value(self) -> Value {
        Value(self.code.len() as usize)
    }

    /// The function after one more instruction has been emitted.
    pub open spec fn emit(self, instruction: InstructionView) -> FunctionView {
        FunctionView { code: self.code.push(instruction), ..self }
    }

    /// The reference that the next bound function gets.
    pub open spec fn next_func_ref(self) -> FuncRef {
        FuncRef(self.func_refs.len() as usize)
    }

    /// The function after a declared function has been bound into it.
    pub open spec fn bind_function(self, id: FuncId) -> FunctionView {
        FunctionView { func_refs: self.func_refs.push(id), ..self }
    }

    /// The reference that the next bound data object gets.
    pub open spec fn next_global(self) -> GlobalValue {
        GlobalValue(self.globals.len() as usize)
    }

    /// The function after a data object has been bound into it.
    pub open spec fn bind_data(self, id: DataId) -> FunctionView {
        FunctionView { globals: self.globals.push(id), ..self }
    }

    /// The function after a variable has been declared.
    pub open spec fn with_variable(self, variable: Variable) -> FunctionView {
        FunctionView { vars: self.vars.push(variable), ..self }
    }
}

impl View for CodegenContext {
    type V = FunctionView;

    open spec fn view(&self) -> FunctionView {
        FunctionView {
            code: Seq::new(self.code@.len(), |i: int| self.code@[i]@),
            vars: self.vars@,
            func_refs: self.func_refs@,
            globals: self.globals@,
        }
    }
}

impl CodegenContext {
    /// The content of a function context is always representable.
    pub proof fn lemma_representable(&self)
        ensures
            self@.representable(),
    {
        assert(self.code.len() <= usize::MAX);
        assert(self.func_refs.len() <= usize::MAX);
        assert(self.globals.len() <= usize::MAX);
    }

    /// The context of a function body of which nothing has been lowered yet.
    pub fn new() -> (ctx: CodegenContext)
        ensures
            ctx@.code.len() == 0,
            ctx@.vars.len() == 0,
            ctx@.func_refs.len() == 0,
            ctx@.globals.len() == 0,
            forall|m: ModuleView| #[trigger] ctx@.well_formed(m),
    {
        CodegenContext {
            code: Vec::new(),
            vars: Vec::new(),
            func_refs: Vec::new(),
            globals: Vec::new(),
        }
    }

    /// Checks that the instruction at a position uses only values defined
    /// before it and bindings that the body holds.
    pub fn is_instruction_well_formed(&self, at: usize) -> (ok: bool)
        requires
            at < self.code.len(),
        ensures
            ok == self@.instruction_well_formed(at as int),
    {
        match &self.code[at] {
            Instruction::Iconst { .. } => true,
            Instruction::F64const { .. } => true,
            Instruction::Binary { left, right, .. } => left.0 < at && right.0 < at,
            Instruction::GlobalValue { global, .. } => global.0 < self.globals.len(),
            Instruction::Call { callee, args } => {
                if callee.0 >= self.func_refs.len() {
                    return false;
                }
                let mut k: usize = 0;
                while k < args.len()
                    invariant
                        k <= args.len(),
                        at < self.code.len(),
                        self@.code[at as int] == (InstructionView::Call {
                            callee: *callee,
                            args: args@,
                        }),
                        callee.0 < self.func_refs.len(),
                        forall|j: int| 0 <= j < k ==> (#[trigger] args@[j]).0 < at,
                    decreases args.len() - k,
                {
                    if args[k].0 >= at {
                        proof {
                            let emitted = self@.code[at as int];
                            assert(emitted matches InstructionView::Call { callee: c, args: a }
                                && a == args@ && a[k as int].0 >= at);
                        }
                        return false;
                    }
                    k += 1;
                }
                true
            },
        }
    }

    /// Checks that the function is well formed in the module: that every
    /// instruction is, that every binding refers to something the module
    /// holds, and that every variable holds a defined value.
    pub fn is_well_formed(&self, cctx: &CompilerContext) -> (ok: bool)
        ensures
            ok == self@.well_formed(cctx@),
    {
        let mut i: usize = 0;
        while i < self.code.len()
            invariant
                i <= self.code.len(),
                forall|j: int| 0 <= j < i ==> #[trigger] self@.instruction_well_formed(j),
            decreases self.code.len() - i,
        {
            if !self.is_instruction_well_formed(i) {
                assert(!self@.instruction_well_formed(i as int));
                return false;
            }
            i += 1;
        }
        let mut i: usize = 0;
        while i < self.func_refs.len()
            invariant
                i <= self.func_refs.len(),
                forall|j: int|
                    0 <= j < i ==> (#[trigger] self@.func_refs[j]).0 < cctx@.declarations.len(),
            decreases self.func_refs.len() - i,
        {
            if self.func_refs[i].0 >= cctx.declarations.len() {
                assert(!(self@.func_refs[i as int].0 < cctx@.declarations.len()));
                return false;
            }
            i += 1;
        }
        let mut i: usize = 0;
        while i < self.globals.len()
            invariant
                i <= self.globals.len(),
                forall|j: int| 0 <= j < i ==> (#[trigger] self@.globals[j]).0 < cctx@.data.len(),
            decreases self.globals.len() - i,
        {
            if self.globals[i].0 >= cctx.data.len() {
                assert(!(self@.globals[i as int].0 < cctx@.data.len()));
                return false;
            }
            i += 1;
        }
        let mut i: usize = 0;
        while i < self.vars.len()
            invariant
                i <= self.vars.len(),
                forall|j: int|
                    0 <= j < i ==> (#[trigger] self@.vars[j]).value.0 < self@.code.len(),
            decreases self.vars.len() - i,
        {
            if self.vars[i].value.0 >= self.code.len() {
                assert(!(self@.vars[i as int].value.0 < self@.code.len()));
                return false;
            }
            i += 1;
        }
        true
    }

    /// Appends an instruction and gives the value that it defines.
    pub fn emit(&mut self, instruction: Instruction) -> (value: Value)
        ensures
            final(self)@ =~= old(self)@.emit(instruction@),
            value == old(self)@.next_value(),
    {
        let value = Value(self.code.len());
        self.code.push(instruction);
        assert(self@.code =~= old(self)@.code.push(instruction@));
        value
    }

    /// Binds a declared function into the body, so that the body can call
    /// it.
    pub fn declare_func_in_func(&mut self, id: FuncId) -> (local: FuncRef)
        ensures
            final(self)@ =~= old(self)@.bind_function(id),
            local == old(self)@.next_func_ref(),
    {
        let local = FuncRef(self.func_refs.len());
        self.func_refs.push(id);
        assert(self@.code =~= old(self)@.code);
        local
    }

    /// Binds a data object into the body, so that the body can take its
    /// address.
    pub fn declare_data_in_func(&mut self, id: DataId) -> (local: GlobalValue)
        ensures
            final(self)@ =~= old(self)@.bind_data(id),
            local == old(self)@.next_global(),
    {
        let local = GlobalValue(self.globals.len());
        self.globals.push(id);
        assert(self@.code =~= old(self)@.code);
        local
    }

    /// Declares a variable, or binds a parameter, with its current value and
    /// the type name it was given, if any.
    pub fn declare_variable(&mut self, variable: Variable)
        ensures
            final(self)@ =~= old(self)@.with_variable(variable),
            forall|m: ModuleView|
                old(self)@.well_formed(m) && variable.value.0 < old(self)@.code.len()
                    ==> #[trigger] final(self)@.well_formed(m),
    {
        self.vars.push(variable);
        assert(self@.code =~= old(self)@.code);
        assert forall|m: ModuleView|
            old(self)@.well_formed(m) && variable.value.0
                < old(self)@.code.len() implies #[trigger] self@.well_formed(m) by {
            assert forall|i: int| 0 <= i < self@.code.len() implies #[trigger] self@.instruction_well_formed(
                i,
            ) by {
                assert(old(self)@.instruction_well_formed(i));
            }
            assert forall|i: int| 0 <= i < self@.vars.len() implies (#[trigger] self@.vars[i]).value.0
                < self@.code.len() by {
                if i < old(self)@.vars.len() {
                    assert(old(self)@.vars[i].value.0 < old(self)@.code.len());
                }
            }
            assert forall|i: int| 0 <= i < self@.func_refs.len() implies (
            #[trigger] self@.func_refs[i]).0 < m.declarations.len() by {
                assert(old(self)@.func_refs[i].0 < m.declarations.len());
            }
            assert forall|i: int| 0 <= i < self@.globals.len() implies (
            #[trigger] self@.globals[i]).0 < m.data.len() by {
                assert(old(self)@.globals[i].0 < m.data.len());
            }
        }
    }

    /// Finds the variable that `name` refers to.
    pub fn find_variable(&self, name: &str) -> (found: Option<usize>)
        ensures
            found is Some <==> self@.variable_index(name@) is Some,
            found matches Some(i) ==> self@.variable_index(name@) == Some(i as int) && i
                < self.vars.len(),
    {
        let ghost names = self@.variable_names();
        let mut i = self.vars.len();
        assert(names.take(i as int) =~= names);
        while i > 0
            invariant
                i <= self.vars.len(),
                names == self@.variable_names(),
                last_index_of(names, name@) == last_index_of(names.take(i as int), name@),
            decreases i,
        {
            i -= 1;
            assert(names.take(i + 1).last() == self.vars[i as int].name@);
            if same_text(self.vars[i].name.as_str(), name) {
                return Some(i);
            }
            assert(names.take(i + 1).drop_last() =~= names.take(i as int));
        }
        assert(names.take(0).len() == 0);
        None
    }
}

} // verus!
