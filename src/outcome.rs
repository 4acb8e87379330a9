use vstd::prelude::*;

verus! {

/// The terminal result of one job, handed back to the caller that submitted it.
#[derive(Clone, Copy, Debug, PartialEq, Eq, Structural)]
pub enum Outcome {
    /// The script's event loop ran to completion before the deadline.
    Completed { elapsed_ms: u64 },
    /// The deadline passed first; the sandbox and its pending work were discarded.
    TimedOut { elapsed_ms: u64 },
    /// The identifier did not resolve to a script that could be loaded and started.
    InitFailed,
    /// The script raised an error while its event loop ran, before the deadline.
    ScriptFailed { elapsed_ms: u64 },
    /// No execution context could be created for the job.
    SpawnFailed,
}

/// The body returned to the caller when its job succeeded.
pub const SUCCESS_BODY: &'static str = "ok";

/// The body returned to the caller for any other end of its job, including a
/// reply channel that was dropped without an answer.
pub const FAILURE_BODY: &'static str = "sad";

/// The body of the liveness route.
pub const LIVENESS_BODY: &'static str = "Nothing to see here";

/// What the caller is told, given what arrived on its reply channel
/// (`None`: the channel was closed without a value).
pub open spec fn body_of(reply: Option<Outcome>) -> Seq<char> {
    match reply {
        Some(Outcome::Completed { .. }) => SUCCESS_BODY@,
        _ => FAILURE_BODY@,
    }
}

impl Outcome {
    /// Whether this outcome counts as a success for the caller.
    pub fn is_success(&self) -> (r: bool)
        ensures
            r == (*self is Completed),
    {
        match self {
            Outcome::Completed { .. } => true,
            _ => false,
        }
    }

    /// Milliseconds from the job's start to its end, where the job got as far
    /// as running its script.
    pub fn elapsed_ms(&self) -> (r: Option<u64>)
        ensures
            r == match *self {
                Outcome::Completed { elapsed_ms } => Some(elapsed_ms),
                Outcome::TimedOut { elapsed_ms } => Some(elapsed_ms),
                Outcome::ScriptFailed { elapsed_ms } => Some(elapsed_ms),
                Outcome::InitFailed => None,
                Outcome::SpawnFailed => None,
            },
    {
        match self {
            Outcome::Completed { elapsed_ms } => Some(*elapsed_ms),
            Outcome::TimedOut { elapsed_ms } => Some(*elapsed_ms),
            Outcome::ScriptFailed { elapsed_ms } => Some(*elapsed_ms),
            Outcome::InitFailed => None,
            Outcome::SpawnFailed => None,
        }
    }
}

} // verus!
