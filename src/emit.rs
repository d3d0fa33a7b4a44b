//! The artifact kinds that the compile driver can emit.
use vstd::prelude::*;
use vstd::string::*;
use crate::text::same_text;

verus! {

/// What the compile driver emits: assembly or LLVM intermediate representation.
#[derive(Clone, Copy, Debug, PartialEq, Eq, Structural)]
pub enum CompileOutput {
    Asm,
    Llvm,
}

/// The error for an emit name that no kind has.
#[derive(Debug)]
pub struct UnknownEmit {
    pub name: String,
}

/// The name under which a request selects `k`.
pub open spec fn emit_name(k: CompileOutput) -> Seq<char> {
    match k {
        CompileOutput::Asm => "asm"@,
        CompileOutput::Llvm => "llvm-ir"@,
    }
}

/// The kind that the name `s` selects, if any.
pub open spec fn emit_named(s: Seq<char>) -> Option<CompileOutput> {
    if s == "asm"@ {
        Some(CompileOutput::Asm)
    } else if s == "llvm-ir"@ {
        Some(CompileOutput::Llvm)
    } else {
        None
    }
}

/// The driver option that selects `k`.
pub open spec fn emit_option(k: CompileOutput) -> Seq<char> {
    match k {
        CompileOutput::Asm => "--pass=asm"@,
        CompileOutput::Llvm => "--pass=ir"@,
    }
}

/// The highlighter lexer for the text that `k` produces.
pub open spec fn emit_lexer(k: CompileOutput) -> Seq<char> {
    match k {
        CompileOutput::Asm => "gas"@,
        CompileOutput::Llvm => "llvm"@,
    }
}

impl CompileOutput {
    /// The options handed to the compile driver for this kind.
    pub fn as_opts(&self) -> (r: Vec<&'static str>)
        ensures
            r@.len() == 1,
            r@[0]@ == emit_option(*self),
    {
        match self {
            CompileOutput::Asm => vec!["--pass=asm"],
            CompileOutput::Llvm => vec!["--pass=ir"],
        }
    }

    /// The lexer that highlights output of this kind.
    pub fn lexer(&self) -> (r: &'static str)
        ensures
            r@ == emit_lexer(*self),
    {
        match self {
            CompileOutput::Asm => "gas",
            CompileOutput::Llvm => "llvm",
        }
    }

    /// Reads an emit name; a name that no kind has is refused.
    pub fn parse(s: &str) -> (r: Result<CompileOutput, UnknownEmit>)
        ensures
            r matches Ok(k) ==> emit_named(s@) == Some(k) && emit_name(k) == s@,
            r is Err <==> emit_named(s@) is None,
            r matches Err(e) ==> e.name@ == s@,
    {
        if same_text(s, "asm") {
            Ok(CompileOutput::Asm)
        } else if same_text(s, "llvm-ir") {
            proof {
                reveal_strlit("asm");
                reveal_strlit("llvm-ir");
                assert(s@.len() != "asm"@.len());
            }
            Ok(CompileOutput::Llvm)
        } else {
            Err(UnknownEmit { name: String::from_str(s) })
        }
    }
}

} // verus!
