//! Encoding of an execution outcome into the two-part result string:
//! a status digit, a newline, then the body.

use vstd::prelude::*;
use crate::outcome::ExecutionOutcome;

verus! {

/// What decoding a byte sequence permissively as text yields: invalid byte
/// sequences become replacement markers instead of failing. The result is a
/// function of the bytes alone.
pub uninterp spec fn lossy_of(b: Seq<u8>) -> Seq<char>;

/// Relies on String::from_utf8_lossy: the decoding depends on the bytes
/// alone, substitutes a replacement character for invalid sequences, and
/// yields nothing from no bytes.
#[verifier::external_body]
fn from_utf8_lossy(b: &Vec<u8>) -> (r: String)
    ensures
        r@ == lossy_of(b@),
        b@.len() == 0 ==> r@.len() == 0,
{
    String::from_utf8_lossy(b).into_owned()
}

/// The status digit of an outcome: '0' only for a run that completed with a
/// successful exit status; '1' for a failed exit, a failed spawn or a
/// timeout.
pub open spec fn status_digit(o: ExecutionOutcome) -> char {
    match o {
        ExecutionOutcome::Completed { exit_success, .. } => if exit_success {
            '0'
        } else {
            '1'
        },
        ExecutionOutcome::SpawnFailed => '1',
        ExecutionOutcome::TimedOut => '1',
    }
}

/// The body of an encoded outcome: the decoded standard output on success,
/// the decoded standard error on failure, nothing on a failed spawn, and the
/// fixed sentinel on timeout (any partial output is discarded).
pub open spec fn body_of(o: ExecutionOutcome) -> Seq<char> {
    match o {
        ExecutionOutcome::Completed { exit_success, stdout, stderr } => if exit_success {
            lossy_of(stdout@)
        } else {
            lossy_of(stderr@)
        },
        ExecutionOutcome::SpawnFailed => Seq::empty(),
        ExecutionOutcome::TimedOut => seq!['T', 'i', 'm', 'e', 'o', 'u', 't'],
    }
}

/// The full encoding of an outcome: its status digit, a newline, then its
/// body, with no other framing.
pub open spec fn encoded(o: ExecutionOutcome) -> Seq<char> {
    seq![status_digit(o), '\n'] + body_of(o)
}

/// Encodes an outcome into the result string handed back to the caller.
pub fn format_output(o: &ExecutionOutcome) -> (r: String)
    ensures
        r@ == encoded(*o),
{
    match o {
        ExecutionOutcome::Completed { exit_success, stdout, stderr } => {
            let mut r = if *exit_success {
                String::from_str("0\n")
            } else {
                String::from_str("1\n")
            };
            let body = if *exit_success {
                from_utf8_lossy(stdout)
            } else {
                from_utf8_lossy(stderr)
            };
            r.append(body.as_str());
            proof {
                reveal_strlit("0\n");
                reveal_strlit("1\n");
                assert(r@ =~= encoded(*o));
            }
            r
        },
        ExecutionOutcome::SpawnFailed => {
            let r = String::from_str("1\n");
            proof {
                reveal_strlit("1\n");
                assert(r@ =~= encoded(*o));
            }
            r
        },
        ExecutionOutcome::TimedOut => {
            let r = String::from_str("1\nTimeout");
            proof {
                reveal_strlit("1\nTimeout");
                assert(r@ =~= encoded(*o));
            }
            r
        },
    }
}

/// Every encoded result is the status digit, then a newline, then the body,
/// and nothing else.
pub proof fn lemma_encoding_shape(o: ExecutionOutcome)
    ensures
        encoded(o).len() == 2 + body_of(o).len(),
        encoded(o)[0] == status_digit(o),
        encoded(o)[1] == '\n',
        encoded(o).skip(2) == body_of(o),
{
    assert(encoded(o).skip(2) =~= body_of(o));
}

/// A run that completed with exit status zero encodes with status digit '0'
/// and a body that is exactly the decoded standard output.
pub proof fn lemma_success_encoding(o: ExecutionOutcome)
    requires
        o is Completed,
        o->exit_success,
    ensures
        status_digit(o) == '0',
        body_of(o) == lossy_of(o->stdout@),
        encoded(o) == seq!['0', '\n'] + lossy_of(o->stdout@),
{
    assert(encoded(o) =~= seq!['0', '\n'] + lossy_of(o->stdout@));
}

/// A run that completed with a non-zero exit status encodes with status
/// digit '1' and a body that is exactly the decoded standard error.
pub proof fn lemma_failure_encoding(o: ExecutionOutcome)
    requires
        o is Completed,
        !o->exit_success,
    ensures
        status_digit(o) == '1',
        body_of(o) == lossy_of(o->stderr@),
        encoded(o) == seq!['1', '\n'] + lossy_of(o->stderr@),
{
    assert(encoded(o) =~= seq!['1', '\n'] + lossy_of(o->stderr@));
}

/// A run whose deadline elapsed first encodes as exactly the fixed sentinel
/// result, whatever output the child had begun producing.
pub proof fn lemma_timeout_encoding()
    ensures
        encoded(ExecutionOutcome::TimedOut) == "1\nTimeout"@,
{
    reveal_strlit("1\nTimeout");
    assert(encoded(ExecutionOutcome::TimedOut) =~= "1\nTimeout"@);
}

/// A run whose interpreter could not be spawned encodes as a failure with an
/// empty diagnostic body.
pub proof fn lemma_spawn_failure_encoding()
    ensures
        encoded(ExecutionOutcome::SpawnFailed) == "1\n"@,
{
    reveal_strlit("1\n");
    assert(encoded(ExecutionOutcome::SpawnFailed) =~= "1\n"@);
}

/// The encoded result is a function of the observable outcome alone: two
/// runs with the same status digit and the same body encode identically, so
/// repeating a request reproduces the result whenever the run itself is
/// reproduced.
pub proof fn lemma_encoding_deterministic(a: ExecutionOutcome, b: ExecutionOutcome)
    requires
        status_digit(a) == status_digit(b),
        body_of(a) == body_of(b),
    ensures
        encoded(a) == encoded(b),
{
    assert(encoded(a) =~= encoded(b));
}

} // verus!
