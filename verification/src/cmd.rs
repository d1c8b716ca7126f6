//! The `run` command: which of the compiler's stages it asks for.

use vstd::prelude::*;

verus! {

/// The arguments of the `run` command.
#[derive(Clone, Debug, PartialEq, Eq)]
pub struct RunCommand {
    /// The path to the file to compile.
    pub file: String,
    /// Instead of running, dump the tokens.
    pub dump_tokens: bool,
    /// Instead of running, dump the syntax tree.
    pub dump_ast: bool,
}

/// How far a run goes.
#[derive(Clone, Copy, Debug, PartialEq, Eq, Structural)]
pub enum RunStage {
    /// Tokenize, print the tokens and stop.
    DumpTokens,
    /// Parse, print the syntax tree and stop.
    DumpAst,
    /// Compile and run.
    Execute,
}

impl RunCommand {
    /// The stage that the command stops at. Tokens are produced before the
    /// tree, so a request for the tokens is served first.
    pub open spec fn last_stage(self) -> RunStage {
        if self.dump_tokens {
            RunStage::DumpTokens
        } else if self.dump_ast {
            RunStage::DumpAst
        } else {
            RunStage::Execute
        }
    }

    pub fn stage(&self) -> (stage: RunStage)
        ensures
            stage == self.last_stage(),
    {
        if self.dump_tokens {
            RunStage::DumpTokens
        } else if self.dump_ast {
            RunStage::DumpAst
        } else {
            RunStage::Execute
        }
    }
}

} // verus!
