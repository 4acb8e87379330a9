use vstd::prelude::*;

use tokio::sync::oneshot;

use crate::channel::{deliver, Delivery, Submission};
use crate::outcome::Outcome;

verus! {

/// Where one job stands in its life cycle.
#[derive(Clone, Copy, Debug, PartialEq, Eq, Structural)]
pub enum JobPhase {
    /// The runner exists; its thread has not begun work.
    Created,
    /// The sandbox is being bound to the job's script and started.
    SandboxInitializing,
    /// The sandbox's event loop is being driven under the remaining budget.
    Running,
    /// The job has ended with this outcome, which has been handed out once.
    Finished { outcome: Outcome },
}

/// What the driver of a job observed. Times count from the job's start.
#[derive(Clone, Copy, Debug, PartialEq, Eq, Structural)]
pub enum JobEvent {
    /// The runner's thread is up.
    Begin,
    /// The sandbox was created and the script's main module was executed.
    SandboxReady { elapsed_ms: u64 },
    /// The identifier did not resolve, or the script could not be started.
    SandboxFailed,
    /// The event loop ran to its end.
    LoopFinished { elapsed_ms: u64 },
    /// The event loop stopped with an error from the script.
    LoopFailed { elapsed_ms: u64 },
    /// The budget handed out ran out before the awaited work ended.
    DeadlineElapsed { elapsed_ms: u64 },
}

/// What the driver of a job must do next.
#[derive(Clone, Copy, Debug, PartialEq, Eq, Structural)]
pub enum JobAction {
    /// Create the sandbox for the job's identifier and execute its main
    /// module, for at most `budget_ms`.
    InitSandbox { budget_ms: u64 },
    /// Drive the sandbox's event loop for at most `budget_ms`, then discard it
    /// if it has not finished.
    RunEventLoop { budget_ms: u64 },
    /// Send this outcome on the job's reply channel.
    Deliver { outcome: Outcome },
    /// The event does not apply to the current phase; nothing is to be done.
    Ignore,
}

/// The outcome of an event loop that stopped at `elapsed_ms`: when the stop
/// came at or past the deadline, the deadline has won the race.
pub open spec fn settle(timeout_ms: u64, elapsed_ms: u64, failed: bool) -> Outcome {
    if elapsed_ms >= timeout_ms {
        Outcome::TimedOut { elapsed_ms }
    } else if failed {
        Outcome::ScriptFailed { elapsed_ms }
    } else {
        Outcome::Completed { elapsed_ms }
    }
}

/// Ends the job with `o`, handing it out.
pub open spec fn finish(o: Outcome) -> (JobPhase, JobAction) {
    (JobPhase::Finished { outcome: o }, JobAction::Deliver { outcome: o })
}

/// The next phase and the action, for a job with deadline `timeout_ms` in
/// phase `p` that observes `e`.
pub open spec fn transition(timeout_ms: u64, p: JobPhase, e: JobEvent) -> (JobPhase, JobAction) {
    match (p, e) {
        (JobPhase::Created, JobEvent::Begin) => (
            JobPhase::SandboxInitializing,
            JobAction::InitSandbox { budget_ms: timeout_ms },
        ),
        (JobPhase::SandboxInitializing, JobEvent::SandboxReady { elapsed_ms }) => {
            if elapsed_ms < timeout_ms {
                (
                    JobPhase::Running,
                    JobAction::RunEventLoop { budget_ms: (timeout_ms - elapsed_ms) as u64 },
                )
            } else {
                finish(Outcome::TimedOut { elapsed_ms })
            }
        },
        (JobPhase::SandboxInitializing, JobEvent::SandboxFailed) => finish(Outcome::InitFailed),
        (JobPhase::SandboxInitializing, JobEvent::DeadlineElapsed { elapsed_ms }) => finish(
            Outcome::TimedOut { elapsed_ms },
        ),
        (JobPhase::Running, JobEvent::LoopFinished { elapsed_ms }) => finish(
            settle(timeout_ms, elapsed_ms, false),
        ),
        (JobPhase::Running, JobEvent::LoopFailed { elapsed_ms }) => finish(
            settle(timeout_ms, elapsed_ms, true),
        ),
        (JobPhase::Running, JobEvent::DeadlineElapsed { elapsed_ms }) => finish(
            Outcome::TimedOut { elapsed_ms },
        ),
        _ => (p, JobAction::Ignore),
    }
}

/// The life cycle of one job: its script's identifier, its deadline, and its phase.
pub struct JobRunner {
    pub identifier: String,
    pub timeout_ms: u64,
    pub phase: JobPhase,
}

impl JobRunner {
    /// A runner for the script `identifier` with a budget of `timeout_ms`.
    pub fn new(identifier: String, timeout_ms: u64) -> (r: JobRunner)
        ensures
            r.identifier@ == identifier@,
            r.timeout_ms == timeout_ms,
            r.phase == JobPhase::Created,
    {
        JobRunner { identifier, timeout_ms, phase: JobPhase::Created }
    }

    /// Whether the job has reached its end.
    pub fn is_finished(&self) -> (r: bool)
        ensures
            r == (self.phase is Finished),
    {
        match self.phase {
            JobPhase::Finished { .. } => true,
            _ => false,
        }
    }

    /// Takes in one observation and says what to do next.
    pub fn step(&mut self, e: JobEvent) -> (a: JobAction)
        ensures
            (final(self).phase, a) == transition(old(self).timeout_ms, old(self).phase, e),
            final(self).identifier@ == old(self).identifier@,
            final(self).timeout_ms == old(self).timeout_ms,
    {
        let t = self.timeout_ms;
        let (p, a) = match (self.phase, e) {
            (JobPhase::Created, JobEvent::Begin) => (
                JobPhase::SandboxInitializing,
                JobAction::InitSandbox { budget_ms: t },
            ),
            (JobPhase::SandboxInitializing, JobEvent::SandboxReady { elapsed_ms }) => {
                if elapsed_ms < t {
                    (JobPhase::Running, JobAction::RunEventLoop { budget_ms: t - elapsed_ms })
                } else {
                    finish_with(Outcome::TimedOut { elapsed_ms })
                }
            },
            (JobPhase::SandboxInitializing, JobEvent::SandboxFailed) => finish_with(
                Outcome::InitFailed,
            ),
            (JobPhase::SandboxInitializing, JobEvent::DeadlineElapsed { elapsed_ms }) => finish_with(
                Outcome::TimedOut { elapsed_ms },
            ),
            (JobPhase::Running, JobEvent::LoopFinished { elapsed_ms }) => finish_with(
                settle_outcome(t, elapsed_ms, false),
            ),
            (JobPhase::Running, JobEvent::LoopFailed { elapsed_ms }) => finish_with(
                settle_outcome(t, elapsed_ms, true),
            ),
            (JobPhase::Running, JobEvent::DeadlineElapsed { elapsed_ms }) => finish_with(
                Outcome::TimedOut { elapsed_ms },
            ),
            (p, _) => (p, JobAction::Ignore),
        };
        self.phase = p;
        a
    }
}

/// One job owned by its runner thread: the life cycle together with the
/// channel that its single outcome goes back on.
pub struct Job {
    pub runner: JobRunner,
    pub reply: Option<oneshot::Sender<Outcome>>,
}

impl Job {
    /// The reply channel is held exactly as long as the outcome is not yet out.
    pub open spec fn wf(&self) -> bool {
        self.reply is Some <==> !(self.runner.phase is Finished)
    }

    /// Takes a submission into a runner with a budget of `timeout_ms`.
    pub fn new(submission: Submission, timeout_ms: u64) -> (r: Job)
        ensures
            r.wf(),
            r.runner.identifier@ == submission.identifier@,
            r.runner.timeout_ms == timeout_ms,
            r.runner.phase == JobPhase::Created,
            r.reply == Some(submission.reply),
    {
        let Submission { identifier, reply } = submission;
        Job { runner: JobRunner::new(identifier, timeout_ms), reply: Some(reply) }
    }

    /// Takes in one observation, and when it ends the job, sends the outcome
    /// on the reply channel. The second result says what became of that send.
    pub fn advance(&mut self, e: JobEvent) -> (r: (JobAction, Option<Delivery>))
        requires
            old(self).wf(),
        ensures
            final(self).wf(),
            (final(self).runner.phase, r.0) == transition(
                old(self).runner.timeout_ms,
                old(self).runner.phase,
                e,
            ),
            final(self).runner.identifier@ == old(self).runner.identifier@,
            final(self).runner.timeout_ms == old(self).runner.timeout_ms,
            r.0 is Deliver <==> (old(self).reply is Some && final(self).reply is None),
            !(r.0 is Deliver) ==> final(self).reply == old(self).reply,
            r.1 is Some <==> r.0 is Deliver,
            r.1 matches Some(Delivery::CallerGone { outcome: o }) ==> r.0 == (JobAction::Deliver {
                outcome: o,
            }),
    {
        let a = self.runner.step(e);
        match a {
            JobAction::Deliver { outcome } => {
                let reply = self.reply.take();
                match reply {
                    Some(tx) => (a, Some(deliver(tx, outcome))),
                    None => (a, None),
                }
            },
            _ => (a, None),
        }
    }
}

fn finish_with(o: Outcome) -> (r: (JobPhase, JobAction))
    ensures
        r == finish(o),
{
    (JobPhase::Finished { outcome: o }, JobAction::Deliver { outcome: o })
}

/// Decides the race between an event loop that stopped at `elapsed_ms` and
/// the deadline `timeout_ms`.
pub fn settle_outcome(timeout_ms: u64, elapsed_ms: u64, failed: bool) -> (r: Outcome)
    ensures
        r == settle(timeout_ms, elapsed_ms, failed),
{
    if elapsed_ms >= timeout_ms {
        Outcome::TimedOut { elapsed_ms }
    } else if failed {
        Outcome::ScriptFailed { elapsed_ms }
    } else {
        Outcome::Completed { elapsed_ms }
    }
}

} // verus!
