//! The data model of one execution request and the tagged outcome of racing
//! the child process against the deadline.

use vstd::prelude::*;

verus! {

/// One execution request: opaque code text handed verbatim to the
/// interpreter, a time limit in whole seconds, and optional standard-input
/// text. A zero time limit is legal input; it simply makes the deadline fire
/// at once.
pub struct ExecRequest {
    pub code: String,
    pub timeout: u64,
    pub stdin: Option<String>,
}

/// What the timed wait observed first: either the child process terminated,
/// with its exit status and fully captured output streams, or the deadline
/// elapsed. Exactly one variant applies to a run; the loser of the race is
/// abandoned by the caller that performed the wait.
pub enum WaitOutcome {
    Exited { exit_success: bool, stdout: Vec<u8>, stderr: Vec<u8> },
    DeadlineElapsed,
}

/// The outcome of one whole execution: the child ran to termination
/// (successfully or not, with its captured streams), the interpreter could
/// not be spawned at all, or the deadline fired first.
pub enum ExecutionOutcome {
    Completed { exit_success: bool, stdout: Vec<u8>, stderr: Vec<u8> },
    SpawnFailed,
    TimedOut,
}

/// The standard-input text a request asks for: the given text, or empty when
/// none was given.
pub open spec fn stdin_view(stdin: Option<String>) -> Seq<char> {
    match stdin {
        Option::Some(s) => s@,
        Option::None => Seq::empty(),
    }
}

/// How a finished run maps to its outcome: a failed spawn is its own
/// outcome, a terminated child carries its status and streams over, and an
/// elapsed deadline is a timeout.
pub open spec fn outcome_spec(run: Option<WaitOutcome>) -> ExecutionOutcome {
    match run {
        Option::None => ExecutionOutcome::SpawnFailed,
        Option::Some(w) => match w {
            WaitOutcome::Exited { exit_success, stdout, stderr } => ExecutionOutcome::Completed {
                exit_success,
                stdout,
                stderr,
            },
            WaitOutcome::DeadlineElapsed => ExecutionOutcome::TimedOut,
        },
    }
}

/// The standard-input text of a request, defaulting to empty.
pub fn effective_stdin(stdin: &Option<String>) -> (r: String)
    ensures
        r@ == stdin_view(*stdin),
{
    match stdin {
        Option::Some(s) => s.clone(),
        Option::None => String::new(),
    }
}

impl ExecRequest {
    /// The standard-input text this request delivers to the child.
    pub fn stdin_text(&self) -> (r: String)
        ensures
            r@ == stdin_view(self.stdin),
    {
        effective_stdin(&self.stdin)
    }
}

/// Whether any standard input is to be written to the child at all: only
/// non-empty text is delivered; either way the write end is closed so the
/// child observes end-of-input.
pub fn wants_stdin(stdin: &str) -> (r: bool)
    ensures
        r == (stdin@.len() > 0),
{
    !stdin.is_empty()
}

/// Tags the result of one run: a spawn failure (no wait ever happened), a
/// terminated child, or an elapsed deadline.
pub fn outcome_of_run(run: Option<WaitOutcome>) -> (o: ExecutionOutcome)
    ensures
        o == outcome_spec(run),
{
    match run {
        Option::None => ExecutionOutcome::SpawnFailed,
        Option::Some(w) => match w {
            WaitOutcome::Exited { exit_success, stdout, stderr } => ExecutionOutcome::Completed {
                exit_success,
                stdout,
                stderr,
            },
            WaitOutcome::DeadlineElapsed => ExecutionOutcome::TimedOut,
        },
    }
}

/// The interpreter executable the engine launches, by name.
pub fn interpreter_program() -> (r: &'static str)
    ensures
        r@ == "python3"@,
{
    "python3"
}

/// The flag under which the code text is passed to the interpreter as a
/// single command-line expression, never as a file path.
pub fn code_argument_flag() -> (r: &'static str)
    ensures
        r@ == "-c"@,
{
    "-c"
}

} // verus!
