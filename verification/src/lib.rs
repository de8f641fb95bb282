//! Bounded subprocess execution engine.
//!
//! The library owns the decision logic of a remote code-execution backend:
//! given an opaque code snippet, a time limit in seconds and optional
//! standard-input text, a child interpreter process is raced against a
//! deadline, and the observable outcome (success, failure, spawn failure or
//! timeout) is encoded into a single two-part result string.
//!
//! The process plumbing itself (spawning, pipe writes, the timed wait) is
//! asynchronous I/O and lives outside the library; the library defines the
//! data model of a request, the tagged outcome of the race, and the exact
//! encoding of every outcome.

use vstd::prelude::*;

mod outcome;
mod encode;

pub use outcome::ExecRequest;
pub use outcome::WaitOutcome;
pub use outcome::ExecutionOutcome;
pub use outcome::stdin_view;
pub use outcome::outcome_spec;
pub use outcome::effective_stdin;
pub use outcome::wants_stdin;
pub use outcome::outcome_of_run;
pub use outcome::interpreter_program;
pub use outcome::code_argument_flag;
pub use encode::lossy_of;
pub use encode::status_digit;
pub use encode::body_of;
pub use encode::encoded;
pub use encode::format_output;
pub use encode::lemma_encoding_shape;
pub use encode::lemma_success_encoding;
pub use encode::lemma_failure_encoding;
pub use encode::lemma_timeout_encoding;
pub use encode::lemma_spawn_failure_encoding;
pub use encode::lemma_encoding_deterministic;

verus! {

/// Produces the result string for one whole run: the race result (or a
/// failed spawn) is tagged as an outcome and that outcome is encoded.
pub fn run_result(run: Option<WaitOutcome>) -> (r: String)
    ensures
        r@ == encoded(outcome_spec(run)),
{
    let o = outcome_of_run(run);
    format_output(&o)
}

} // verus!
