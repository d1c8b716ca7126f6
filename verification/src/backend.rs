//! What a compilation target has to supply to the lowering: its pointer type
//! and the machine type that it gives to each type name.

use vstd::prelude::*;
use crate::context::CompilerContext;
use crate::machine::MachineType;
use crate::text::same_text;

verus! {

/// The type name `ptr`, which stands for an address.
pub open spec fn pointer_name() -> Seq<char> {
    seq!['p', 't', 'r']
}

/// The type name `i32`.
pub open spec fn i32_name() -> Seq<char> {
    seq!['i', '3', '2']
}

/// The type name of a parameter or result that was given no type.
pub open spec fn placeholder() -> Seq<char> {
    Seq::empty()
}

/// The capabilities of a compilation target. Lowering is written against
/// this interface alone, so it is the same for every target.
pub trait Backend {
    /// The machine type that the target gives to a type name, on a target
    /// with the given pointer type. With `substitute` set, a name that
    /// stands for no type of its own is given the pointer type.
    spec fn type_of(name: Seq<char>, pointer: MachineType, substitute: bool) -> MachineType;

    /// The name `ptr` is given the pointer type.
    proof fn pointer_name_resolves(pointer: MachineType, substitute: bool)
        ensures
            Self::type_of(pointer_name(), pointer, substitute) == pointer,
    ;

    /// With substitution, the placeholder is given the pointer type.
    proof fn placeholder_resolves(pointer: MachineType)
        ensures
            Self::type_of(placeholder(), pointer, true) == pointer,
    ;

    /// The name `i32` is given the 32-bit integer type.
    proof fn i32_name_resolves(pointer: MachineType, substitute: bool)
        ensures
            Self::type_of(i32_name(), pointer, substitute) == MachineType::I32,
    ;

    /// The native pointer type of the target that the module is compiled
    /// for.
    fn ptr(cctx: &CompilerContext) -> (ty: MachineType)
        ensures
            ty == cctx@.pointer,
    ;

    /// Resolves a type name, without substituting the pointer type.
    fn query_type(cctx: &CompilerContext, name: &str) -> (ty: MachineType)
        ensures
            ty == Self::type_of(name@, cctx@.pointer, false),
    ;

    /// Resolves a type name, substituting the given pointer type where the
    /// name stands for no type of its own.
    fn query_type_with_pointer(ptr: MachineType, name: &str) -> (ty: MachineType)
        ensures
            ty == Self::type_of(name@, ptr, true),
    ;
}

/// Resolving one name twice in one module gives one machine type: the type
/// depends on nothing but the name, the module's pointer type and whether
/// the pointer type is substituted.
pub proof fn lemma_query_type_repeatable<B: Backend>(
    cctx: &CompilerContext,
    name: &str,
    first: MachineType,
    second: MachineType,
)
    requires
        call_ensures(B::query_type, (cctx, name), first),
        call_ensures(B::query_type, (cctx, name), second),
    ensures
        first == second,
{
}

/// The same, for resolution with substitution.
pub proof fn lemma_query_type_with_pointer_repeatable<B: Backend>(
    ptr: MachineType,
    name: &str,
    first: MachineType,
    second: MachineType,
)
    requires
        call_ensures(B::query_type_with_pointer, (ptr, name), first),
        call_ensures(B::query_type_with_pointer, (ptr, name), second),
    ensures
        first == second,
{
}

/// The type names that [`DefaultBackend`] knows, as characters.
pub open spec fn primitive_type(name: Seq<char>) -> Option<MachineType> {
    if name == seq!['b', 'o', 'o', 'l'] {
        Some(MachineType::I1)
    } else if name == seq!['i', '8'] {
        Some(MachineType::I8)
    } else if name == seq!['i', '1', '6'] {
        Some(MachineType::I16)
    } else if name == seq!['i', '3', '2'] {
        Some(MachineType::I32)
    } else if name == seq!['i', '6', '4'] {
        Some(MachineType::I64)
    } else if name == seq!['i', '1', '2', '8'] {
        Some(MachineType::I128)
    } else if name == seq!['f', '3', '2'] {
        Some(MachineType::F32)
    } else if name == seq!['f', '6', '4'] {
        Some(MachineType::F64)
    } else if name == seq!['c', 'h', 'a', 'r'] {
        Some(MachineType::I32)
    } else {
        None
    }
}

/// The machine type of a primitive type name, if `name` is one.
pub fn primitive(name: &str) -> (ty: Option<MachineType>)
    ensures
        ty == primitive_type(name@),
{
    proof {
        reveal_strlit("bool");
        reveal_strlit("i8");
        reveal_strlit("i16");
        reveal_strlit("i32");
        reveal_strlit("i64");
        reveal_strlit("i128");
        reveal_strlit("f32");
        reveal_strlit("f64");
        reveal_strlit("char");
        assert("bool"@ =~= seq!['b', 'o', 'o', 'l']);
        assert("i8"@ =~= seq!['i', '8']);
        assert("i16"@ =~= seq!['i', '1', '6']);
        assert("i32"@ =~= seq!['i', '3', '2']);
        assert("i64"@ =~= seq!['i', '6', '4']);
        assert("i128"@ =~= seq!['i', '1', '2', '8']);
        assert("f32"@ =~= seq!['f', '3', '2']);
        assert("f64"@ =~= seq!['f', '6', '4']);
        assert("char"@ =~= seq!['c', 'h', 'a', 'r']);
    }
    if same_text(name, "bool") {
        Some(MachineType::I1)
    } else if same_text(name, "i8") {
        Some(MachineType::I8)
    } else if same_text(name, "i16") {
        Some(MachineType::I16)
    } else if same_text(name, "i32") {
        Some(MachineType::I32)
    } else if same_text(name, "i64") {
        Some(MachineType::I64)
    } else if same_text(name, "i128") {
        Some(MachineType::I128)
    } else if same_text(name, "f32") {
        Some(MachineType::F32)
    } else if same_text(name, "f64") {
        Some(MachineType::F64)
    } else if same_text(name, "char") {
        Some(MachineType::I32)
    } else {
        None
    }
}

/// A target that gives each primitive type name its machine type and every
/// other name the pointer type.
#[derive(Clone, Copy, Debug, PartialEq, Eq, Structural)]
pub struct DefaultBackend;

impl Backend for DefaultBackend {
    open spec fn type_of(name: Seq<char>, pointer: MachineType, substitute: bool) -> MachineType {
        match primitive_type(name) {
            Some(ty) => ty,
            None => pointer,
        }
    }

    proof fn pointer_name_resolves(pointer: MachineType, substitute: bool) {
        assert(pointer_name().len() == 3);
        assert(pointer_name()[0] == 'p');
        assert(primitive_type(pointer_name()) is None) by {
            lemma_not_that_name(pointer_name());
        }
    }

    proof fn placeholder_resolves(pointer: MachineType) {
        assert(primitive_type(placeholder()) is None) by {
            lemma_empty_is_no_primitive();
        }
    }

    proof fn i32_name_resolves(pointer: MachineType, substitute: bool) {
        assert(i32_name() =~= seq!['i', '3', '2']);
        lemma_i32_is_primitive();
    }

    fn ptr(cctx: &CompilerContext) -> (ty: MachineType) {
        cctx.pointer
    }

    fn query_type(cctx: &CompilerContext, name: &str) -> (ty: MachineType) {
        match primitive(name) {
            Some(ty) => ty,
            None => cctx.pointer,
        }
    }

    fn query_type_with_pointer(ptr: MachineType, name: &str) -> (ty: MachineType) {
        match primitive(name) {
            Some(ty) => ty,
            None => ptr,
        }
    }
}

/// A name that starts with `p` is no primitive type name.
proof fn lemma_not_that_name(name: Seq<char>)
    requires
        name.len() > 0,
        name[0] == 'p',
    ensures
        primitive_type(name) is None,
{
    assert(seq!['b', 'o', 'o', 'l'][0] == 'b');
    assert(seq!['i', '8'][0] == 'i');
    assert(seq!['i', '1', '6'][0] == 'i');
    assert(seq!['i', '3', '2'][0] == 'i');
    assert(seq!['i', '6', '4'][0] == 'i');
    assert(seq!['i', '1', '2', '8'][0] == 'i');
    assert(seq!['f', '3', '2'][0] == 'f');
    assert(seq!['f', '6', '4'][0] == 'f');
    assert(seq!['c', 'h', 'a', 'r'][0] == 'c');
}

proof fn lemma_empty_is_no_primitive()
    ensures
        primitive_type(Seq::<char>::empty()) is None,
{
    let e = Seq::<char>::empty();
    assert(seq!['b', 'o', 'o', 'l'].len() == 4);
    assert(seq!['i', '8'].len() == 2);
    assert(seq!['i', '1', '6'].len() == 3);
    assert(seq!['i', '3', '2'].len() == 3);
    assert(seq!['i', '6', '4'].len() == 3);
    assert(seq!['i', '1', '2', '8'].len() == 4);
    assert(seq!['f', '3', '2'].len() == 3);
    assert(seq!['f', '6', '4'].len() == 3);
    assert(seq!['c', 'h', 'a', 'r'].len() == 4);
    assert(e.len() == 0);
}

proof fn lemma_i32_is_primitive()
    ensures
        primitive_type(seq!['i', '3', '2']) == Some(MachineType::I32),
{
    let n = seq!['i', '3', '2'];
    assert(seq!['b', 'o', 'o', 'l'].len() == 4);
    assert(seq!['i', '8'].len() == 2);
    assert(seq!['i', '1', '6'][1] == '1');
    assert(n[1] == '3');
    assert(n.len() == 3);
}

} // verus!
