//! The ways in which lowering and linking fail.

use vstd::prelude::*;
use crate::text::joined;

verus! {

/// Why a node could not be lowered. A failure ends the compilation: nothing
/// is substituted for the value that could not be produced.
#[derive(Clone, Debug, PartialEq, Eq)]
pub enum LowerError {
    /// The operator has no lowering rule.
    UnsupportedOperation,
    /// The name is already taken by something that the new declaration does
    /// not agree with.
    SymbolConflict(String),
    /// The name refers to no variable of the function being lowered.
    UnknownSymbol(String),
}

/// The mathematical content of a [`LowerError`].
pub enum LowerFailure {
    UnsupportedOperation,
    SymbolConflict(Seq<char>),
    UnknownSymbol(Seq<char>),
}

impl View for LowerError {
    type V = LowerFailure;

    open spec fn view(&self) -> LowerFailure {
        match self {
            LowerError::UnsupportedOperation => LowerFailure::UnsupportedOperation,
            LowerError::SymbolConflict(name) => LowerFailure::SymbolConflict(name@),
            LowerError::UnknownSymbol(name) => LowerFailure::UnknownSymbol(name@),
        }
    }
}

impl LowerFailure {
    /// The failure in words, with the offending name where there is one.
    pub open spec fn message(self) -> Seq<char> {
        match self {
            LowerFailure::UnsupportedOperation => "unsupported operation"@,
            LowerFailure::SymbolConflict(name) => "symbol conflict: "@ + name,
            LowerFailure::UnknownSymbol(name) => "unknown symbol: "@ + name,
        }
    }
}

impl LowerError {
    /// The failure in words, with the offending name where there is one.
    pub fn message(&self) -> (text: String)
        ensures
            text@ == self@.message(),
    {
        match self {
            LowerError::UnsupportedOperation => String::from_str("unsupported operation"),
            LowerError::SymbolConflict(name) => joined("symbol conflict: ", name.as_str()),
            LowerError::UnknownSymbol(name) => joined("unknown symbol: ", name.as_str()),
        }
    }
}

/// Why the linking stage failed.
#[derive(Clone, Copy, Debug, PartialEq, Eq)]
pub enum LinkError {
    /// Library paths and the dynamic linker are not known for this family of
    /// platforms.
    NotImplemented,
    /// The linker ended with an exit code other than 0, or without one.
    LinkerFailed(Option<i32>),
}

impl LinkError {
    /// The failure in words.
    pub open spec fn message_text(self) -> Seq<char> {
        match self {
            LinkError::NotImplemented => "not implemented"@,
            LinkError::LinkerFailed(_) => "the linker failed"@,
        }
    }

    /// The failure in words.
    pub fn message(&self) -> (text: String)
        ensures
            text@ == self.message_text(),
    {
        match self {
            LinkError::NotImplemented => String::from_str("not implemented"),
            LinkError::LinkerFailed(_) => String::from_str("the linker failed"),
        }
    }
}

} // verus!
