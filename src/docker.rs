//! One isolated environment: a container of the runtime, from creation to
//! teardown. The lifecycle is a state machine. The caller performs each
//! [`Action`] that it hands out and feeds back what came of it as an
//! [`Event`]; the machine decides what happens next and guarantees that an
//! environment that was created is torn down exactly once.
use vstd::prelude::*;
use vstd::string::*;
use crate::text::{decode_lossy, lossy_text, trim_text, trimmed};

verus! {

/// How a run ended. Exactly one of the three holds.
#[derive(Clone, Copy, Debug, PartialEq, Eq, Structural)]
pub enum ChildResult {
    ExitCode(i32),
    Signal(i32),
    TimedOut,
}

/// The disposition that a process reports through its exit code and its
/// terminating signal; the exit code wins, and a process that reports
/// neither has none.
pub open spec fn disposition(code: Option<i32>, signal: Option<i32>) -> Option<ChildResult> {
    match code {
        Some(c) => Some(ChildResult::ExitCode(c)),
        None => match signal {
            Some(s) => Some(ChildResult::Signal(s)),
            None => None,
        },
    }
}

impl ChildResult {
    /// The disposition of a process that ended by itself.
    pub fn from_status(code: Option<i32>, signal: Option<i32>) -> (r: Option<ChildResult>)
        ensures
            r == disposition(code, signal),
            r is None <==> (code is None && signal is None),
    {
        match code {
            Some(c) => Some(ChildResult::ExitCode(c)),
            None => match signal {
                Some(s) => Some(ChildResult::Signal(s)),
                None => None,
            },
        }
    }
}

/// The outcome of one run: its disposition and what it wrote.
#[derive(Debug)]
pub struct RunResult {
    pub result: ChildResult,
    pub stdout: Vec<u8>,
    pub stderr: Vec<u8>,
}

impl View for RunResult {
    type V = (ChildResult, Seq<u8>, Seq<u8>);

    open spec fn view(&self) -> (ChildResult, Seq<u8>, Seq<u8>) {
        (self.result, self.stdout@, self.stderr@)
    }
}

impl RunResult {
    /// The outcome of a run stopped at its deadline, with what it had written.
    pub fn timed_out(stdout: Vec<u8>, stderr: Vec<u8>) -> (r: RunResult)
        ensures
            r@ == (ChildResult::TimedOut, stdout@, stderr@),
    {
        RunResult { result: ChildResult::TimedOut, stdout, stderr }
    }

    /// What the run wrote to its standard output.
    pub fn stdout(&self) -> (r: &[u8])
        ensures
            r@ == self.stdout@,
    {
        self.stdout.as_slice()
    }

    /// What the run wrote to its standard error.
    pub fn stderr(&self) -> (r: &[u8])
        ensures
            r@ == self.stderr@,
    {
        self.stderr.as_slice()
    }

    /// Whether the run exited by itself with code zero.
    pub fn success(&self) -> (r: bool)
        ensures
            r == (self.result == ChildResult::ExitCode(0)),
    {
        match self.result {
            ChildResult::ExitCode(c) => c == 0,
            _ => false,
        }
    }
}

/// The program of the container runtime's command line.
pub const RUNTIME: &'static str = "docker";

/// The views of a sequence of strings.
pub open spec fn texts(v: Seq<String>) -> Seq<Seq<char>> {
    v.map_values(|s: String| s@)
}

/// The flag that sets the variable `k` to `v` inside the environment.
pub open spec fn env_flag(k: Seq<char>, v: Seq<char>) -> Seq<char> {
    "--env="@ + k + "="@ + v
}

/// The flags that confine every environment: no capabilities, a memory
/// ceiling, no network, a process-count ceiling, no privilege escalation,
/// and an input stream that can be attached.
pub open spec fn confinement() -> Seq<Seq<char>> {
    seq![
        "--cap-drop=ALL"@,
        "--memory=1024m"@,
        "--net=none"@,
        "--pids-limit=20"@,
        "--security-opt=no-new-privileges"@,
        "--interactive"@,
    ]
}

/// The runtime's arguments that create an environment of `image` to run
/// `cmd` with `args`, with the variables of `env` set.
pub open spec fn create_args_of(
    cmd: Seq<char>,
    args: Seq<String>,
    env: Seq<(String, String)>,
    image: Seq<char>,
) -> Seq<Seq<char>> {
    seq!["create"@] + confinement() + env.map_values(|p: (String, String)| env_flag(p.0@, p.1@))
        + seq![image, cmd] + texts(args)
}

/// The runtime's arguments that start environment `id` attached to its streams.
pub open spec fn start_args_of(id: Seq<char>) -> Seq<Seq<char>> {
    seq!["start"@, "--attach"@, "--interactive"@, id]
}

/// The runtime's arguments that stop environment `id` by force.
pub open spec fn kill_args_of(id: Seq<char>) -> Seq<Seq<char>> {
    seq!["kill"@, id]
}

/// The runtime's arguments that remove environment `id` by force.
pub open spec fn remove_args_of(id: Seq<char>) -> Seq<Seq<char>> {
    seq!["rm"@, "--force"@, id]
}

proof fn lemma_texts_push(v: Seq<String>, s: String)
    ensures
        texts(v.push(s)) == texts(v).push(s@),
{
    assert(texts(v.push(s)) =~= texts(v).push(s@));
}

/// Appends a copy of each string of `words` to `out`.
fn push_all(out: &mut Vec<String>, words: &[&str])
    ensures
        texts(final(out)@) == texts(old(out)@) + words@.map_values(|w: &str| w@),
{
    let mut i: usize = 0;
    while i < words.len()
        invariant
            i <= words@.len(),
            texts(out@) == texts(old(out)@) + words@.take(i as int).map_values(|w: &str| w@),
        decreases words@.len() - i,
    {
        let w = String::from_str(words[i]);
        let ghost prev = out@;
        out.push(w);
        proof {
            lemma_texts_push(prev, w);
            assert(words@.take(i + 1) =~= words@.take(i as int).push(words@[i as int]));
            assert(words@.take(i + 1).map_values(|w: &str| w@)
                =~= words@.take(i as int).map_values(|w: &str| w@).push(words@[i as int]@));
            assert(texts(out@) =~= texts(old(out)@) + words@.take(i + 1).map_values(|w: &str| w@));
        }
        i = i + 1;
    }
    assert(words@.take(words@.len() as int) =~= words@);
}

/// The runtime's arguments that create an environment (see [`create_args_of`]).
pub fn create_args(cmd: &str, args: &[String], env: &[(String, String)], image: &str) -> (r: Vec<String>)
    ensures
        texts(r@) == create_args_of(cmd@, args@, env@, image@),
{
    let mut out: Vec<String> = Vec::new();
    push_all(&mut out, &["create", "--cap-drop=ALL", "--memory=1024m", "--net=none",
        "--pids-limit=20", "--security-opt=no-new-privileges", "--interactive"]);
    proof {
        reveal_strlit("create");
    }
    assert(texts(out@) =~= seq!["create"@] + confinement());
    let ghost base = texts(out@);
    let mut i: usize = 0;
    while i < env.len()
        invariant
            i <= env@.len(),
            texts(out@) == base + env@.take(i as int).map_values(|p: (String, String)| env_flag(p.0@, p.1@)),
        decreases env@.len() - i,
    {
        let mut flag = String::from_str("--env=");
        flag.append(env[i].0.as_str());
        flag.append("=");
        flag.append(env[i].1.as_str());
        let ghost prev = out@;
        out.push(flag);
        proof {
            lemma_texts_push(prev, flag);
            assert(flag@ == env_flag(env@[i as int].0@, env@[i as int].1@));
            assert(env@.take(i + 1) =~= env@.take(i as int).push(env@[i as int]));
            assert(env@.take(i + 1).map_values(|p: (String, String)| env_flag(p.0@, p.1@))
                =~= env@.take(i as int).map_values(|p: (String, String)| env_flag(p.0@, p.1@))
                    .push(env_flag(env@[i as int].0@, env@[i as int].1@)));
            assert(texts(out@) =~= base + env@.take(i + 1).map_values(|p: (String, String)| env_flag(p.0@, p.1@)));
        }
        i = i + 1;
    }
    assert(env@.take(env@.len() as int) =~= env@);
    out.push(String::from_str(image));
    out.push(String::from_str(cmd));
    let ghost mid = texts(out@);
    let mut j: usize = 0;
    while j < args.len()
        invariant
            j <= args@.len(),
            texts(out@) == mid + texts(args@.take(j as int)),
        decreases args@.len() - j,
    {
        let a = args[j].clone();
        let ghost prev = out@;
        out.push(a);
        proof {
            lemma_texts_push(prev, a);
            assert(args@.take(j + 1) =~= args@.take(j as int).push(args@[j as int]));
            lemma_texts_push(args@.take(j as int), args@[j as int]);
            assert(texts(out@) =~= mid + texts(args@.take(j + 1)));
        }
        j = j + 1;
    }
    assert(args@.take(args@.len() as int) =~= args@);
    assert(texts(out@) =~= create_args_of(cmd@, args@, env@, image@));
    out
}

/// A list of copies of `words` followed by a copy of `id`.
fn words_then(words: &[&str], id: &str) -> (r: Vec<String>)
    ensures
        texts(r@) == words@.map_values(|w: &str| w@).push(id@),
{
    let mut out: Vec<String> = Vec::new();
    push_all(&mut out, words);
    out.push(String::from_str(id));
    assert(texts(out@) =~= words@.map_values(|w: &str| w@).push(id@));
    out
}

/// The runtime's arguments that start environment `id` (see [`start_args_of`]).
pub fn start_args(id: &str) -> (r: Vec<String>)
    ensures
        texts(r@) == start_args_of(id@),
{
    let r = words_then(&["start", "--attach", "--interactive"], id);
    assert(texts(r@) =~= start_args_of(id@));
    r
}

/// The runtime's arguments that stop environment `id` (see [`kill_args_of`]).
pub fn kill_args(id: &str) -> (r: Vec<String>)
    ensures
        texts(r@) == kill_args_of(id@),
{
    let r = words_then(&["kill"], id);
    assert(texts(r@) =~= kill_args_of(id@));
    r
}

/// The runtime's arguments that remove environment `id` (see [`remove_args_of`]).
pub fn remove_args(id: &str) -> (r: Vec<String>)
    ensures
        texts(r@) == remove_args_of(id@),
{
    let r = words_then(&["rm", "--force"], id);
    assert(texts(r@) =~= remove_args_of(id@));
    r
}

/// Where an environment stands in its lifecycle.
#[derive(Clone, Copy, Debug, PartialEq, Eq, Structural)]
pub enum Stage {
    /// Asked to be created; nothing exists yet.
    Creating,
    /// Created; being started with its input.
    Starting,
    /// Running; waiting for it to end, up to the deadline.
    Waiting,
    /// Past the deadline; being stopped by force.
    Killing,
    /// Stopped; collecting the output that it still held.
    Flushing,
    /// Done: the outcome is known.
    Finished,
}

/// What the caller is to do next.
#[derive(Clone, Copy, Debug, PartialEq, Eq, Structural)]
pub enum Action {
    /// Run the runtime with [`Container::create_args`].
    Create,
    /// Run the runtime with [`Container::start_args`], attached, and write
    /// the input, then close it.
    Start,
    /// Wait, up to the deadline, for the process to end while draining its
    /// standard output and standard error.
    Wait,
    /// Run the runtime with [`Container::kill_args`].
    Kill,
    /// Wait, for a bounded grace period, for the rest of the output.
    Flush,
    /// Remove the environment with [`Container::remove_args`], without
    /// waiting for it, and report the outcome.
    Teardown,
    /// Report the outcome; there is nothing to remove.
    Report,
}

/// What came of the last action.
#[derive(Debug)]
pub enum Event {
    /// The environment was created; the runtime printed `stdout`.
    Created { stdout: Vec<u8> },
    /// The process was started and its input written and closed.
    Started,
    /// The process ended by itself before the deadline.
    Exited { code: Option<i32>, signal: Option<i32>, stdout: Vec<u8>, stderr: Vec<u8> },
    /// The deadline passed; this is the output drained until then.
    DeadlineReached { stdout: Vec<u8>, stderr: Vec<u8> },
    /// The environment was stopped.
    Killed,
    /// The output that came after the deadline.
    Flushed { stdout: Vec<u8>, stderr: Vec<u8> },
    /// The last action failed.
    Failed,
}

/// Why a run produced no outcome. Callers see one opaque failure; the step
/// that failed is kept for the log.
#[derive(Clone, Copy, Debug, PartialEq, Eq, Structural)]
pub enum ExecError {
    Create,
    Start,
    Wait,
    NoDisposition,
    Kill,
    Flush,
}

/// Whether an environment exists and has not been torn down at stage `s`.
pub open spec fn holds_environment(s: Stage) -> bool {
    s is Starting || s is Waiting || s is Killing || s is Flushing
}

/// The stage after event `e` at stage `s`. An event that does not answer
/// the stage's action counts as a failure.
pub open spec fn next_stage(s: Stage, e: Event) -> Stage {
    match s {
        Stage::Creating => if e is Created { Stage::Starting } else { Stage::Finished },
        Stage::Starting => if e is Started { Stage::Waiting } else { Stage::Finished },
        Stage::Waiting => if e is DeadlineReached { Stage::Killing } else { Stage::Finished },
        Stage::Killing => if e is Killed { Stage::Flushing } else { Stage::Finished },
        _ => Stage::Finished,
    }
}

/// Whether an environment has been created, after event `e` at stage `s`.
pub open spec fn next_created(s: Stage, created: bool, e: Event) -> bool {
    created || (s is Creating && e is Created)
}

/// The action after event `e` at stage `s`.
pub open spec fn action_after(s: Stage, e: Event) -> Action {
    match next_stage(s, e) {
        Stage::Starting => Action::Start,
        Stage::Waiting => Action::Wait,
        Stage::Killing => Action::Kill,
        Stage::Flushing => Action::Flush,
        _ => if holds_environment(s) { Action::Teardown } else { Action::Report },
    }
}

/// The error for a failure at stage `s`.
pub open spec fn failure_at(s: Stage) -> ExecError {
    match s {
        Stage::Creating => ExecError::Create,
        Stage::Starting => ExecError::Start,
        Stage::Killing => ExecError::Kill,
        Stage::Flushing => ExecError::Flush,
        _ => ExecError::Wait,
    }
}

/// The outcome when event `e` ends stage `s`, where `out` and `err` are the
/// output drained before the deadline.
pub open spec fn outcome_after(s: Stage, out: Seq<u8>, err: Seq<u8>, e: Event) -> Result<
    (ChildResult, Seq<u8>, Seq<u8>),
    ExecError,
> {
    match e {
        Event::Exited { code, signal, stdout, stderr } => if s is Waiting {
            match disposition(code, signal) {
                Some(d) => Ok((d, stdout@, stderr@)),
                None => Err(ExecError::NoDisposition),
            }
        } else {
            Err(failure_at(s))
        },
        Event::Flushed { stdout, stderr } => if s is Flushing {
            Ok((ChildResult::TimedOut, out + stdout@, err + stderr@))
        } else {
            Err(failure_at(s))
        },
        _ => Err(failure_at(s)),
    }
}

/// The view of an outcome.
pub open spec fn outcome_view(o: Option<Result<RunResult, ExecError>>) -> Option<
    Result<(ChildResult, Seq<u8>, Seq<u8>), ExecError>,
> {
    match o {
        Some(Ok(r)) => Some(Ok(r@)),
        Some(Err(e)) => Some(Err(e)),
        None => None,
    }
}

/// The number of teardowns that an environment has had at stage `s`.
pub open spec fn teardowns_at(s: Stage, created: bool) -> nat {
    if s is Finished && created { 1 } else { 0 }
}

/// Feeds `evs` to a lifecycle at stage `s`: the final stage, whether an
/// environment was created, and how many teardowns were asked for on the way.
pub open spec fn run_events(s: Stage, created: bool, evs: Seq<Event>) -> (Stage, bool, nat)
    decreases evs.len(),
{
    if evs.len() == 0 {
        (s, created, 0)
    } else {
        let e = evs[0];
        let rest = run_events(next_stage(s, e), next_created(s, created, e), evs.drop_first());
        (rest.0, rest.1, rest.2 + if action_after(s, e) is Teardown { 1nat } else { 0nat })
    }
}

/// The stages at which `created` may hold.
pub open spec fn consistent(s: Stage, created: bool) -> bool {
    &&& s is Creating ==> !created
    &&& holds_environment(s) ==> created
}

proof fn lemma_run_events(s: Stage, created: bool, evs: Seq<Event>)
    requires
        consistent(s, created),
    ensures
        ({
            let r = run_events(s, created, evs);
            consistent(r.0, r.1) && teardowns_at(r.0, r.1) == teardowns_at(s, created) + r.2
        }),
    decreases evs.len(),
{
    if evs.len() > 0 {
        let e = evs[0];
        lemma_run_events(next_stage(s, e), next_created(s, created, e), evs.drop_first());
    }
}

/// Whatever events come back, a lifecycle asks for at most one teardown;
/// exactly one where an environment was created and the lifecycle has
/// finished, and none where no environment was created.
pub proof fn lemma_teardown_exactly_once(evs: Seq<Event>)
    ensures
        ({
            let r = run_events(Stage::Creating, false, evs);
            &&& r.2 <= 1
            &&& (r.0 is Finished && r.1) ==> r.2 == 1
            &&& !r.1 ==> r.2 == 0
        }),
{
    lemma_run_events(Stage::Creating, false, evs);
}

/// A run stopped at its deadline ends timed out, and the output drained
/// before the deadline starts what it reports.
pub proof fn lemma_timeout_keeps_output(out: Seq<u8>, err: Seq<u8>, e: Event)
    requires
        e is Flushed,
    ensures
        outcome_after(Stage::Flushing, out, err, e) matches Ok((d, o, r)) && d is TimedOut
            && o.take(out.len() as int) == out && r.take(err.len() as int) == err,
{
    let (o, r) = match e {
        Event::Flushed { stdout, stderr } => (out + stdout@, err + stderr@),
        _ => (out, err),
    };
    assert(o.take(out.len() as int) =~= out);
    assert(r.take(err.len() as int) =~= err);
}

/// Every outcome that a run reports carries exactly one disposition; a
/// process that reports neither an exit code nor a signal yields no outcome
/// but an error.
pub proof fn lemma_disposition_never_unset(s: Stage, out: Seq<u8>, err: Seq<u8>, e: Event)
    ensures
        outcome_after(s, out, err, e) matches Ok((d, o, r)) ==> (d is ExitCode) as int + (d is Signal) as int
            + (d is TimedOut) as int == 1,
        (s is Waiting && e matches Event::Exited { code: None, signal: None, .. }) ==> outcome_after(
            s,
            out,
            err,
            e,
        ) == Err::<(ChildResult, Seq<u8>, Seq<u8>), ExecError>(ExecError::NoDisposition),
{
}

/// One isolated environment and where it stands in its lifecycle.
pub struct Container {
    pub stage: Stage,
    /// The runtime's identifier, once created.
    pub id: String,
    pub created: bool,
    /// How many teardowns this lifecycle has asked for.
    pub teardowns: u64,
    /// The output drained before the deadline, on the timeout path.
    pub early_stdout: Vec<u8>,
    pub early_stderr: Vec<u8>,
    /// The outcome, once finished.
    pub outcome: Option<Result<RunResult, ExecError>>,
    /// The runtime's arguments that create this environment.
    pub create: Vec<String>,
}

impl Container {
    /// The lifecycle's invariant: an environment exists at the stages that
    /// hold one, the outcome is known exactly when finished, and a created
    /// environment has had one teardown once finished, none before.
    pub open spec fn wf(&self) -> bool {
        &&& consistent(self.stage, self.created)
        &&& self.teardowns == teardowns_at(self.stage, self.created)
        &&& (self.outcome is Some <==> self.stage is Finished)
    }

    /// The arguments that create this environment.
    pub open spec fn create_args_view(&self) -> Seq<Seq<char>> {
        texts(self.create@)
    }

    /// A lifecycle about to create an environment of `image` that runs
    /// `cmd` with `args` and the variables of `env`. Its first action is
    /// [`Action::Create`].
    pub fn new(cmd: &str, args: &[String], env: &[(String, String)], image: &str) -> (r: Container)
        ensures
            r.wf(),
            r.stage is Creating,
            !r.created,
            r.create_args_view() == create_args_of(cmd@, args@, env@, image@),
    {
        Container {
            stage: Stage::Creating,
            id: String::new(),
            created: false,
            teardowns: 0,
            early_stdout: Vec::new(),
            early_stderr: Vec::new(),
            outcome: None,
            create: create_args(cmd, args, env, image),
        }
    }

    /// The runtime's arguments for [`Action::Create`].
    pub fn create_args(&self) -> (r: Vec<String>)
        ensures
            texts(r@) == self.create_args_view(),
    {
        let mut out: Vec<String> = Vec::new();
        let mut i: usize = 0;
        while i < self.create.len()
            invariant
                i <= self.create@.len(),
                texts(out@) == texts(self.create@.take(i as int)),
            decreases self.create@.len() - i,
        {
            let a = self.create[i].clone();
            let ghost prev = out@;
            out.push(a);
            proof {
                lemma_texts_push(prev, a);
                assert(self.create@.take(i + 1) =~= self.create@.take(i as int).push(self.create@[i as int]));
                lemma_texts_push(self.create@.take(i as int), self.create@[i as int]);
            }
            i = i + 1;
        }
        assert(self.create@.take(self.create@.len() as int) =~= self.create@);
        out
    }

    /// The runtime's arguments for [`Action::Start`].
    pub fn start_args(&self) -> (r: Vec<String>)
        ensures
            texts(r@) == start_args_of(self.id@),
    {
        start_args(self.id.as_str())
    }

    /// The runtime's arguments for [`Action::Kill`].
    pub fn kill_args(&self) -> (r: Vec<String>)
        ensures
            texts(r@) == kill_args_of(self.id@),
    {
        kill_args(self.id.as_str())
    }

    /// The runtime's arguments for [`Action::Teardown`].
    pub fn remove_args(&self) -> (r: Vec<String>)
        ensures
            texts(r@) == remove_args_of(self.id@),
    {
        remove_args(self.id.as_str())
    }

    /// Takes in what came of the last action and says what to do next.
    pub fn step(&mut self, e: Event) -> (r: Action)
        requires
            old(self).wf(),
        ensures
            final(self).wf(),
            r == action_after(old(self).stage, e),
            final(self).stage == next_stage(old(self).stage, e),
            final(self).created == next_created(old(self).stage, old(self).created, e),
            final(self).teardowns == old(self).teardowns + if r is Teardown { 1int } else { 0int },
            old(self).stage is Creating ==> (e matches Event::Created { stdout }
                ==> final(self).id@ == trimmed(lossy_text(stdout@))),
            !(old(self).stage is Creating) ==> final(self).id == old(self).id,
            old(self).stage is Waiting ==> (e matches Event::DeadlineReached { stdout, stderr }
                ==> final(self).early_stdout@ == stdout@ && final(self).early_stderr@ == stderr@),
            old(self).stage is Finished ==> outcome_view(final(self).outcome) == outcome_view(
                old(self).outcome,
            ),
            !(old(self).stage is Finished) && final(self).stage is Finished ==> outcome_view(
                final(self).outcome,
            ) == Some(
                outcome_after(old(self).stage, old(self).early_stdout@, old(self).early_stderr@, e),
            ),
    {
        let stage = self.stage;
        match stage {
            Stage::Finished => {
                return Action::Report;
            },
            _ => {},
        }
        let failed: ExecError = match stage {
            Stage::Creating => ExecError::Create,
            Stage::Starting => ExecError::Start,
            Stage::Killing => ExecError::Kill,
            Stage::Flushing => ExecError::Flush,
            _ => ExecError::Wait,
        };
        match e {
            Event::Created { stdout } => {
                if let Stage::Creating = stage {
                    let text = decode_lossy(stdout.as_slice());
                    self.id = trim_text(text.as_str());
                    self.created = true;
                    self.stage = Stage::Starting;
                    return Action::Start;
                }
            },
            Event::Started => {
                if let Stage::Starting = stage {
                    self.stage = Stage::Waiting;
                    return Action::Wait;
                }
            },
            Event::Exited { code, signal, stdout, stderr } => {
                if let Stage::Waiting = stage {
                    self.outcome = match ChildResult::from_status(code, signal) {
                        Some(d) => Some(Ok(RunResult { result: d, stdout, stderr })),
                        None => Some(Err(ExecError::NoDisposition)),
                    };
                    self.stage = Stage::Finished;
                    self.teardowns = 1;
                    return Action::Teardown;
                }
            },
            Event::DeadlineReached { stdout, stderr } => {
                if let Stage::Waiting = stage {
                    self.early_stdout = stdout;
                    self.early_stderr = stderr;
                    self.stage = Stage::Killing;
                    return Action::Kill;
                }
            },
            Event::Killed => {
                if let Stage::Killing = stage {
                    self.stage = Stage::Flushing;
                    return Action::Flush;
                }
            },
            Event::Flushed { stdout, stderr } => {
                if let Stage::Flushing = stage {
                    let mut out = Vec::new();
                    out.append(&mut self.early_stdout);
                    let mut rest = stdout;
                    out.append(&mut rest);
                    let mut err = Vec::new();
                    err.append(&mut self.early_stderr);
                    let mut rest_err = stderr;
                    err.append(&mut rest_err);
                    self.outcome = Some(Ok(RunResult::timed_out(out, err)));
                    self.stage = Stage::Finished;
                    self.teardowns = 1;
                    return Action::Teardown;
                }
            },
            Event::Failed => {},
        }
        self.outcome = Some(Err(failed));
        self.stage = Stage::Finished;
        if let Stage::Creating = stage {
            Action::Report
        } else {
            self.teardowns = 1;
            Action::Teardown
        }
    }
}

} // verus!
