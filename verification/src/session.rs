//! The process session manager's state machine and streaming semantics.
//!
//! At most one child process may be active at a time. The caller owns the
//! real process handle and the lock guarding it; this module owns the
//! decisions: when a start is allowed, what stop does in each phase, and
//! how the streamed output lines accumulate into the final result.

use vstd::prelude::*;
use vstd::string::StringExecFns;

use crate::errors::{ErrorKind, GeminiError};

verus! {

/// The two phases of the single allowed session.
#[derive(Clone, Copy, Debug, PartialEq, Eq, Structural)]
pub enum SessionPhase {
    /// No child process is active; the handle slot is empty.
    Idle,
    /// A child process is active; the handle slot is populated.
    Running,
}

/// The session manager's state: whether the single allowed child-process
/// slot is populated. The caller keeps the real handle beside it, under
/// the same mutual-exclusion lock.
pub struct GeminiProcessState {
    pub phase: SessionPhase,
}

/// The transition taken by a start request: claim the empty slot, or
/// refuse because a session is already active.
pub open spec fn spec_start(s: SessionPhase) -> (SessionPhase, Result<(), ErrorKind>) {
    match s {
        SessionPhase::Idle => (SessionPhase::Running, Ok(())),
        SessionPhase::Running => (SessionPhase::Running, Err(ErrorKind::AlreadyRunning)),
    }
}

/// The transition taken by a stop request: the slot is cleared whatever
/// the phase was, and stopping is never an error.
pub open spec fn spec_stop(s: SessionPhase) -> SessionPhase {
    SessionPhase::Idle
}

/// The transition taken at end of stream: take whatever handle is stored,
/// leaving the session Idle; reports whether a handle was there to take.
pub open spec fn spec_finish(s: SessionPhase) -> (SessionPhase, bool) {
    (SessionPhase::Idle, s is Running)
}

impl Default for GeminiProcessState {
    /// A session manager starts with the slot empty.
    fn default() -> (r: GeminiProcessState)
        ensures
            r.phase is Idle,
    {
        GeminiProcessState { phase: SessionPhase::Idle }
    }
}

impl GeminiProcessState {
    pub fn new() -> (r: GeminiProcessState)
        ensures
            r.phase is Idle,
    {
        GeminiProcessState { phase: SessionPhase::Idle }
    }

    /// Claim the session slot for a new child process, refusing with
    /// `AlreadyRunning` while a session is active.
    pub fn try_start(&mut self) -> (r: Result<(), GeminiError>)
        ensures
            final(self).phase == spec_start(old(self).phase).0,
            r is Ok <==> spec_start(old(self).phase).1 is Ok,
            r is Err ==> r->Err_0.kind == ErrorKind::AlreadyRunning && r->Err_0.detail@
                == "A Gemini process is already running"@,
    {
        match self.phase {
            SessionPhase::Idle => {
                self.phase = SessionPhase::Running;
                Ok(())
            },
            SessionPhase::Running => Err(
                GeminiError::new(
                    ErrorKind::AlreadyRunning,
                    String::from_str("A Gemini process is already running"),
                ),
            ),
        }
    }

    /// The operating system refused to create the process after the slot
    /// was claimed: release the claim.
    pub fn spawn_failed(&mut self)
        requires
            old(self).phase is Running,
        ensures
            final(self).phase is Idle,
    {
        self.phase = SessionPhase::Idle;
    }

    /// End of stream: take whatever handle is stored, returning the
    /// session to Idle; reports whether a handle was there to take.
    pub fn finish(&mut self) -> (had: bool)
        ensures
            final(self).phase == spec_finish(old(self).phase).0,
            had == spec_finish(old(self).phase).1,
    {
        let had = match self.phase {
            SessionPhase::Running => true,
            SessionPhase::Idle => false,
        };
        self.phase = SessionPhase::Idle;
        had
    }

    /// Cooperative stop: a no-op when Idle, otherwise the stored handle is
    /// to be killed and cleared. Never an error; reports whether there was
    /// a handle to kill.
    pub fn stop(&mut self) -> (had: bool)
        ensures
            final(self).phase == spec_stop(old(self).phase),
            final(self).phase is Idle,
            had == (old(self).phase is Running),
    {
        let had = match self.phase {
            SessionPhase::Running => true,
            SessionPhase::Idle => false,
        };
        self.phase = SessionPhase::Idle;
        had
    }
}

/// Stopping is idempotent: a stop always leaves the session Idle and never
/// errors, so a second stop straight after the first — in particular one
/// issued while already Idle — is also a no-op ending Idle.
pub proof fn lemma_stop_idempotent(s: SessionPhase)
    ensures
        spec_stop(s) is Idle,
        spec_stop(spec_stop(s)) == spec_stop(s),
{
}

/// A start while Running is refused with `AlreadyRunning` and leaves the
/// session Running; once the running process exits naturally, a
/// subsequent start succeeds.
pub proof fn lemma_start_after_natural_exit()
    ensures
        spec_start(SessionPhase::Running).1 == Err::<(), ErrorKind>(ErrorKind::AlreadyRunning),
        spec_start(SessionPhase::Running).0 == SessionPhase::Running,
        spec_finish(SessionPhase::Running).0 == SessionPhase::Idle,
        spec_start(spec_finish(SessionPhase::Running).0).1 is Ok,
{
}

/// The buffer accumulated from the given stream lines: each line in
/// arrival order, each with a trailing newline.
pub open spec fn joined_lines(lines: Seq<Seq<char>>) -> Seq<char>
    decreases lines.len(),
{
    if lines.len() == 0 {
        Seq::empty()
    } else {
        joined_lines(lines.drop_last()) + lines.last() + seq!['\n']
    }
}

/// One streaming step: append the line and a trailing newline to the
/// accumulating buffer, and hand back the event payload to emit — the
/// line itself, so emission preserves arrival order, one event per line.
pub fn stream_step(output: &mut String, line: String) -> (event: String)
    ensures
        final(output)@ == old(output)@ + line@ + seq!['\n'],
        event@ == line@,
{
    output.append(line.as_str());
    output.append("\n");
    proof {
        reveal_strlit("\n");
        assert("\n"@ =~= seq!['\n']);
    }
    line
}

/// The whole finite stream at once: the buffer all lines accumulate to.
pub fn accumulate_output(lines: &Vec<String>) -> (r: String)
    ensures
        r@ == joined_lines(lines.deep_view()),
{
    let ghost lv = lines.deep_view();
    let mut out = String::new();
    let mut i: usize = 0;
    while i < lines.len()
        invariant
            i <= lines.len(),
            lv == lines.deep_view(),
            lv.len() == lines@.len(),
            out@ == joined_lines(lv.subrange(0, i as int)),
        decreases lines.len() - i,
    {
        let line = lines[i].clone();
        let _ = stream_step(&mut out, line);
        proof {
            assert(lv.subrange(0, i as int + 1).drop_last() =~= lv.subrange(0, i as int));
            assert(lv.subrange(0, i as int + 1).last() == lv[i as int]);
        }
        i += 1;
    }
    proof {
        assert(lv.subrange(0, lines@.len() as int) =~= lv);
    }
    out
}

/// A failed execution surfaces the exit status and carries the partial
/// output accumulated so far for diagnostics.
#[derive(Debug)]
pub struct ExecuteError {
    pub error: GeminiError,
    pub partial_output: String,
}

/// The outcome of a finished execution: a clean exit yields the
/// accumulated output; a failing exit surfaces `ExecutionFailed` with the
/// status text and the partial output alongside.
pub fn execute_outcome(output: String, exit_ok: bool, status_text: String) -> (r: Result<
    String,
    ExecuteError,
>)
    ensures
        exit_ok ==> r is Ok && r->Ok_0@ == output@,
        !exit_ok ==> r is Err && r->Err_0.error.kind == ErrorKind::ExecutionFailed
            && r->Err_0.error.detail@ == "Gemini command failed with status: "@ + status_text@
            && r->Err_0.partial_output@ == output@,
{
    if exit_ok {
        Ok(output)
    } else {
        let mut detail = String::from_str("Gemini command failed with status: ");
        detail.append(status_text.as_str());
        Err(
            ExecuteError {
                error: GeminiError::new(ErrorKind::ExecutionFailed, detail),
                partial_output: output,
            },
        )
    }
}

/// The arguments handed to the spawned binary: a model-selection flag when
/// a model is chosen, then the prompt.
pub fn build_gemini_args(prompt: String, model: Option<String>) -> (r: Vec<String>)
    ensures
        model matches Some(m) ==> r.deep_view() == seq!["--model"@, m@, prompt@],
        model is None ==> r.deep_view() == seq![prompt@],
{
    let mut args: Vec<String> = Vec::new();
    match model {
        Some(m) => {
            args.push(String::from_str("--model"));
            args.push(m);
            args.push(prompt);
            proof {
                assert(args.deep_view() =~= seq!["--model"@, m@, prompt@]);
            }
        },
        None => {
            args.push(prompt);
            proof {
                assert(args.deep_view() =~= seq![prompt@]);
            }
        },
    }
    args
}

} // verus!
