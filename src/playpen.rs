//! The execution service: which driver runs for a request, in which image,
//! with which arguments, and how its output is read back.
use vstd::prelude::*;
use vstd::string::*;
use crate::branches::{branch_image, branch_named, Branch, UnknownBranch};
use crate::docker::{create_args_of, texts, ChildResult, Container, RunResult};
use crate::driver::{diagnostics_of, program_output_of, split_driver_output};
use crate::emit::{emit_named, emit_option, CompileOutput, UnknownEmit};
use crate::text::{decode_lossy, lossy_text};

verus! {

/// The driver that interprets and runs a program.
pub const EVALUATE_DRIVER: &'static str = "/usr/local/bin/evaluate.sh";

/// The driver that compiles a program to an artifact.
pub const COMPILE_DRIVER: &'static str = "/usr/local/bin/compile.sh";

/// The wall-clock deadline of one run, in seconds.
pub const TIMEOUT_SECS: u64 = 10;

/// How long, in seconds, a run stopped at its deadline may take to hand
/// over the rest of its output.
pub const FLUSH_GRACE_SECS: u64 = 5;

/// The execution service. It holds no state: each call gets an
/// environment of its own.
pub struct Playpen;

/// One run to perform: a driver, its arguments, the image it runs in, and
/// the source text handed to it on its input.
pub struct Job {
    pub command: String,
    pub args: Vec<String>,
    pub image: String,
    pub input: String,
}

impl Job {
    /// A fresh lifecycle for this job's environment, with no variables set.
    pub fn container(&self) -> (r: Container)
        ensures
            r.wf(),
            r.stage is Creating,
            !r.created,
            r.create_args_view() == create_args_of(self.command@, self.args@, Seq::empty(), self.image@),
    {
        let env: Vec<(String, String)> = Vec::new();
        let r = Container::new(self.command.as_str(), self.args.as_slice(), env.as_slice(), self.image.as_str());
        assert(env@ =~= Seq::<(String, String)>::empty());
        r
    }
}

/// The job of an evaluation: the interpreting driver, without arguments.
pub open spec fn is_evaluate_job(j: Job, b: Branch, code: Seq<char>) -> bool {
    &&& j.command@ == EVALUATE_DRIVER@
    &&& j.args@.len() == 0
    &&& j.image@ == branch_image(b)
    &&& j.input@ == code
}

/// The job of a compilation: the compiling driver, with the option that
/// selects the artifact kind.
pub open spec fn is_compile_job(j: Job, b: Branch, code: Seq<char>, k: CompileOutput) -> bool {
    &&& j.command@ == COMPILE_DRIVER@
    &&& texts(j.args@) == seq![emit_option(k)]
    &&& j.image@ == branch_image(b)
    &&& j.input@ == code
}

impl Playpen {
    pub fn new() -> (r: Playpen) {
        Playpen
    }

    /// Splits the driver's stdout into its diagnostics and the program
    /// output, each decoded as text.
    pub fn parse_output(raw: &[u8]) -> (r: (String, String))
        ensures
            r.0@ == lossy_text(diagnostics_of(raw@)),
            r.1@ == lossy_text(program_output_of(raw@)),
    {
        let (head, tail) = split_driver_output(raw);
        (decode_lossy(head.as_slice()), decode_lossy(tail.as_slice()))
    }

    /// The job that evaluates `code` on track `b`.
    pub fn evaluate_job(b: Branch, code: String) -> (r: Job)
        ensures
            is_evaluate_job(r, b, code@),
    {
        Job {
            command: String::from_str(EVALUATE_DRIVER),
            args: Vec::new(),
            image: String::from_str(b.image()),
            input: code,
        }
    }

    /// The job that compiles `code` on track `b` to an artifact of kind `k`.
    pub fn compile_job(b: Branch, code: String, k: CompileOutput) -> (r: Job)
        ensures
            is_compile_job(r, b, code@, k),
    {
        let opts = k.as_opts();
        let mut args: Vec<String> = Vec::new();
        args.push(String::from_str(opts[0]));
        assert(texts(args@) =~= seq![emit_option(k)]);
        Job {
            command: String::from_str(COMPILE_DRIVER),
            args,
            image: String::from_str(b.image()),
            input: code,
        }
    }
}

impl Default for Playpen {
    fn default() -> (r: Playpen)
        ensures
            r == (Playpen {}),
    {
        Playpen::new()
    }
}

/// A request that is refused before any environment is created.
#[derive(Debug)]
pub enum RequestError {
    UnknownBranch(UnknownBranch),
    UnknownEmit(UnknownEmit),
}

/// The track that an optional track name selects: the release track where
/// there is none.
pub open spec fn selected_branch(name: Option<String>) -> Option<Branch> {
    match name {
        None => Some(Branch::Release),
        Some(n) => branch_named(n@),
    }
}

/// Reads an optional track name, where none means the release track.
pub fn resolve_branch(name: &Option<String>) -> (r: Result<Branch, UnknownBranch>)
    ensures
        r matches Ok(b) ==> selected_branch(*name) == Some(b),
        r is Ok <==> selected_branch(*name) is Some,
        r matches Err(e) ==> (name matches Some(n) && e.name@ == n@),
{
    match name {
        None => Ok(Branch::Release),
        Some(n) => {
            Branch::parse(n.as_str())
        },
    }
}

/// An evaluation request: source text and an optional track name.
pub struct Evaluate {
    pub code: String,
    pub branch: Option<String>,
}

/// A compilation request: the artifact kind by name, source text, and an
/// optional track name.
pub struct Compile {
    pub emit: String,
    pub code: String,
    pub branch: Option<String>,
}

impl Evaluate {
    /// The job that this request asks for; a request that names no track
    /// is refused.
    pub fn job(self) -> (r: Result<Job, RequestError>)
        ensures
            r is Ok <==> selected_branch(self.branch) is Some,
            r matches Ok(j) ==> is_evaluate_job(j, selected_branch(self.branch).unwrap(), self.code@),
            r matches Err(e) ==> e is UnknownBranch,
    {
        match resolve_branch(&self.branch) {
            Ok(b) => Ok(Playpen::evaluate_job(b, self.code)),
            Err(e) => Err(RequestError::UnknownBranch(e)),
        }
    }
}

impl Compile {
    /// The job that this request asks for, and the kind of artifact that it
    /// emits. An emit name that no kind has is refused first, then a name
    /// that no track has.
    pub fn job(self) -> (r: Result<(Job, CompileOutput), RequestError>)
        ensures
            r is Ok <==> emit_named(self.emit@) is Some && selected_branch(self.branch) is Some,
            r matches Ok((j, k)) ==> k == emit_named(self.emit@).unwrap() && is_compile_job(
                j,
                selected_branch(self.branch).unwrap(),
                self.code@,
                k,
            ),
            r matches Err(e) ==> (e is UnknownEmit <==> emit_named(self.emit@) is None),
    {
        let k = match CompileOutput::parse(self.emit.as_str()) {
            Ok(k) => k,
            Err(e) => {
                return Err(RequestError::UnknownEmit(e));
            },
        };
        match resolve_branch(&self.branch) {
            Ok(b) => Ok((Playpen::compile_job(b, self.code, k), k)),
            Err(e) => Err(RequestError::UnknownBranch(e)),
        }
    }
}

/// What an evaluation reports: whether the program succeeded, the
/// compiler's diagnostics, the program's output and its standard error.
pub struct EvaluateReply {
    pub success: bool,
    pub compiler: String,
    pub stdout: String,
    pub stderr: String,
}

impl EvaluateReply {
    /// The reply for run `r`, whose stdout split into `compiler` and `output`.
    pub fn new(r: &RunResult, compiler: String, output: String) -> (e: EvaluateReply)
        ensures
            e.success == (r.result == ChildResult::ExitCode(0)),
            e.compiler@ == compiler@,
            e.stdout@ == output@,
            e.stderr@ == lossy_text(r.stderr@),
    {
        EvaluateReply {
            success: r.success(),
            compiler,
            stdout: output,
            stderr: decode_lossy(r.stderr()),
        }
    }
}

/// What a compilation reports: the artifact, or the compiler's complaint.
pub enum CompileReply {
    /// The run succeeded; this is the artifact text, to be highlighted.
    Artifact(String),
    /// The run failed; this is its standard error.
    Error(String),
}

impl CompileReply {
    /// The reply for run `r`, whose program output is `output`.
    pub fn new(r: &RunResult, output: String) -> (c: CompileReply)
        ensures
            r.result == ChildResult::ExitCode(0) ==> (c matches CompileReply::Artifact(a) && a@ == output@),
            r.result != ChildResult::ExitCode(0) ==> (c matches CompileReply::Error(m) && m@ == lossy_text(
                r.stderr@,
            )),
    {
        if r.success() {
            CompileReply::Artifact(output)
        } else {
            CompileReply::Error(decode_lossy(r.stderr()))
        }
    }
}

} // verus!
