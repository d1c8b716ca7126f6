//! What the lowering and the linking stage read from a target triple.

use vstd::prelude::*;
use crate::context::CompilerContext;
use crate::machine::MachineType;

verus! {

/// The target triple of `target_lexicon`, carried through to the functions
/// that read its components.
#[verifier::external_type_specification]
#[verifier::external_body]
pub struct ExTriple(target_lexicon::Triple);

/// The name that `target_lexicon` displays for the architecture of a
/// triple.
pub uninterp spec fn triple_architecture(triple: target_lexicon::Triple) -> Seq<char>;

/// The name that `target_lexicon` displays for the operating system of a
/// triple.
pub uninterp spec fn triple_operating_system(triple: target_lexicon::Triple) -> Seq<char>;

/// The name that `target_lexicon` displays for the environment of a triple.
pub uninterp spec fn triple_environment(triple: target_lexicon::Triple) -> Seq<char>;

/// The width in bits that `Triple::pointer_width` of `target_lexicon` gives
/// for the pointers of a triple, if it gives one.
pub uninterp spec fn triple_pointer_width(triple: target_lexicon::Triple) -> Option<u8>;

/// The name of the triple's architecture, as `target_lexicon` displays it.
/// The name depends on the triple alone.
#[verifier::external_body]
pub(crate) fn architecture_name(triple: &target_lexicon::Triple) -> (name: String)
    ensures
        name@ == triple_architecture(*triple),
{
    triple.architecture.to_string()
}

/// The name of the triple's operating system, as `target_lexicon` displays
/// it. The name depends on the triple alone.
#[verifier::external_body]
pub(crate) fn operating_system_name(triple: &target_lexicon::Triple) -> (name: String)
    ensures
        name@ == triple_operating_system(*triple),
{
    triple.operating_system.to_string()
}

/// The name of the triple's environment, as `target_lexicon` displays it.
/// The name depends on the triple alone.
#[verifier::external_body]
pub(crate) fn environment_name(triple: &target_lexicon::Triple) -> (name: String)
    ensures
        name@ == triple_environment(*triple),
{
    triple.environment.to_string()
}

/// The width of the target's pointers in bits, as `Triple::pointer_width` of
/// `target_lexicon` gives it: 16, 32 or 64, and nothing where the
/// architecture is not known. The width depends on the triple alone.
#[verifier::external_body]
fn pointer_width_bits(triple: &target_lexicon::Triple) -> (bits: Option<u8>)
    ensures
        bits == triple_pointer_width(*triple),
        bits matches Some(b) ==> b == 16 || b == 32 || b == 64,
{
    match triple.pointer_width() {
        Ok(width) => Some(width.bits()),
        Err(_) => None,
    }
}

/// The pointer type for pointers of a width that a triple reported, if it
/// reported one.
pub fn pointer_type_of_width(bits: Option<u8>) -> (ty: Option<MachineType>)
    ensures
        ty == match bits {
            Some(b) => MachineType::pointer_for(b as nat),
            None => None,
        },
{
    match bits {
        Some(b) => MachineType::pointer(b),
        None => None,
    }
}

/// The native pointer type of a target: the integer type of the width of
/// its pointers, where that width is known.
pub fn target_pointer_type(triple: &target_lexicon::Triple) -> (ty: Option<MachineType>)
    ensures
        ty == match triple_pointer_width(*triple) {
            Some(b) => MachineType::pointer_for(b as nat),
            None => None,
        },
        ty is Some <==> triple_pointer_width(*triple) is Some,
        ty matches Some(t) ==> t.is_pointer_sized(),
{
    pointer_type_of_width(pointer_width_bits(triple))
}

/// The empty module context for pointers of a width that a triple
/// reported: one with the pointer type of that width, where the triple
/// reported a width that has one, and none otherwise.
pub fn context_of_width(bits: Option<u8>) -> (cctx: Option<CompilerContext>)
    ensures
        match bits {
            Some(b) => match MachineType::pointer_for(b as nat) {
                Some(pointer) => cctx matches Some(c) && {
                    &&& c@.pointer == pointer
                    &&& c@.functions.len() == 0
                    &&& c@.declarations.len() == 0
                    &&& c@.data.len() == 0
                    &&& c@.data_desc.len() == 0
                    &&& c@.well_formed()
                },
                None => cctx is None,
            },
            None => cctx is None,
        },
{
    match pointer_type_of_width(bits) {
        Some(pointer) => Some(CompilerContext::new(pointer)),
        None => None,
    }
}

/// An empty module context for a target, with the pointer type of the
/// width of the target's pointers, where that width is known.
pub fn context_for_target(triple: &target_lexicon::Triple) -> (cctx: Option<CompilerContext>)
    ensures
        cctx is Some <==> triple_pointer_width(*triple) is Some,
        cctx matches Some(c) ==> {
            &&& Some(c@.pointer) == MachineType::pointer_for(
                triple_pointer_width(*triple).unwrap() as nat,
            )
            &&& c@.pointer.is_pointer_sized()
            &&& c@.functions.len() == 0
            &&& c@.declarations.len() == 0
            &&& c@.data.len() == 0
            &&& c@.data_desc.len() == 0
            &&& c@.well_formed()
        },
{
    context_of_width(pointer_width_bits(triple))
}

} // verus!
