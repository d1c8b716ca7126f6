//! The lowering and linking stages of a small compiler.
//!
//! A parsed syntax tree is lowered to a target-independent intermediate
//! representation: literals become constants, binary operations become
//! arithmetic instructions, calls are given a signature and emitted, and
//! string literals become data objects of the module. The linking stage
//! chooses a linker and computes the command line that turns an object file
//! into an executable.

pub mod ast;
pub mod backend;
pub mod cmd;
pub mod context;
pub mod error;
pub mod generator;
pub mod invariants;
pub mod ir;
pub mod keyword;
pub mod linker;
pub mod literal;
pub mod lowering;
pub mod machine;
pub mod properties;
pub mod target;
pub mod text;
