use vstd::prelude::*;

use crate::job::{transition, JobAction, JobEvent, JobPhase};
use crate::outcome::{body_of, Outcome, FAILURE_BODY, SUCCESS_BODY};

verus! {

/// The phase a job reaches, and the actions it asks for in order, when it
/// starts in `p` and observes `events` one after another.
pub open spec fn run(timeout_ms: u64, p: JobPhase, events: Seq<JobEvent>) -> (JobPhase, Seq<
    JobAction,
>)
    decreases events.len(),
{
    if events.len() == 0 {
        (p, Seq::empty())
    } else {
        let (q, acts) = run(timeout_ms, p, events.drop_last());
        let (r, a) = transition(timeout_ms, q, events.last());
        (r, acts.push(a))
    }
}

/// How many of `acts` hand an outcome to the caller.
pub open spec fn deliveries(acts: Seq<JobAction>) -> nat
    decreases acts.len(),
{
    if acts.len() == 0 {
        0
    } else {
        deliveries(acts.drop_last()) + if acts.last() is Deliver {
            1nat
        } else {
            0nat
        }
    }
}

/// Exactly-once delivery: whatever a job observes, it hands out at most one
/// outcome, and exactly one once it has ended; that outcome is the one it
/// ended with.
pub proof fn lemma_delivers_exactly_once(timeout_ms: u64, events: Seq<JobEvent>)
    ensures
        ({
            let (p, acts) = run(timeout_ms, JobPhase::Created, events);
            &&& deliveries(acts) == if p is Finished {
                1nat
            } else {
                0nat
            }
            &&& forall|i: int|
                0 <= i < acts.len() && acts[i] is Deliver ==> p == (JobPhase::Finished {
                    outcome: acts[i]->Deliver_outcome,
                })
        }),
    decreases events.len(),
{
    if events.len() > 0 {
        lemma_delivers_exactly_once(timeout_ms, events.drop_last());
        let (q, prev) = run(timeout_ms, JobPhase::Created, events.drop_last());
        let (p, acts) = run(timeout_ms, JobPhase::Created, events);
        assert(acts == prev.push(transition(timeout_ms, q, events.last()).1));
        assert(acts.drop_last() =~= prev);
        assert forall|i: int| 0 <= i < acts.len() && #[trigger] acts[i] is Deliver implies p == (
        JobPhase::Finished { outcome: acts[i]->Deliver_outcome }) by {
            if i < prev.len() {
                assert(acts[i] == prev[i]);
            }
        }
    }
}

/// A job reports success only with an elapsed time under its deadline, and
/// its caller is then answered with the success body.
pub proof fn lemma_success_within_deadline(timeout_ms: u64, events: Seq<JobEvent>)
    ensures
        ({
            let acts = run(timeout_ms, JobPhase::Created, events).1;
            forall|i: int|
                0 <= i < acts.len() ==> (#[trigger] acts[i] matches JobAction::Deliver {
                    outcome: Outcome::Completed { elapsed_ms },
                } ==> elapsed_ms < timeout_ms && body_of(Some(acts[i]->Deliver_outcome))
                    == SUCCESS_BODY@)
        }),
    decreases events.len(),
{
    if events.len() > 0 {
        lemma_success_within_deadline(timeout_ms, events.drop_last());
    }
}

/// A script whose event loop ends before the deadline earns its caller the
/// success body, with the elapsed time it took.
pub proof fn lemma_quick_script_answers_ok(timeout_ms: u64, elapsed_ms: u64)
    requires
        elapsed_ms < timeout_ms,
    ensures
        transition(timeout_ms, JobPhase::Running, JobEvent::LoopFinished { elapsed_ms }) == (
        JobPhase::Finished { outcome: Outcome::Completed { elapsed_ms } },
        JobAction::Deliver { outcome: Outcome::Completed { elapsed_ms } }),
        body_of(Some(Outcome::Completed { elapsed_ms })) == SUCCESS_BODY@,
{
}

/// The event loop is handed exactly what is left of the deadline, so a
/// script that never ends is cut off when the job's full budget is spent,
/// and its caller then gets the failure body.
pub proof fn lemma_endless_script_answers_failure(
    timeout_ms: u64,
    ready_ms: u64,
    elapsed_ms: u64,
)
    requires
        ready_ms < timeout_ms,
    ensures
        transition(timeout_ms, JobPhase::SandboxInitializing, JobEvent::SandboxReady { elapsed_ms: ready_ms }) == (
        JobPhase::Running, JobAction::RunEventLoop { budget_ms: (timeout_ms - ready_ms) as u64 }),
        transition(timeout_ms, JobPhase::Running, JobEvent::DeadlineElapsed { elapsed_ms }) == (
        JobPhase::Finished { outcome: Outcome::TimedOut { elapsed_ms } },
        JobAction::Deliver { outcome: Outcome::TimedOut { elapsed_ms } }),
        body_of(Some(Outcome::TimedOut { elapsed_ms })) == FAILURE_BODY@,
{
}

/// A caller whose reply channel closes without a value is never left
/// waiting for nothing: it gets the failure body, as for every outcome other
/// than success.
pub proof fn lemma_every_reply_is_answered(reply: Option<Outcome>)
    ensures
        body_of(reply) == if reply matches Some(Outcome::Completed { .. }) {
            SUCCESS_BODY@
        } else {
            FAILURE_BODY@
        },
        body_of(None) == FAILURE_BODY@,
{
}

/// Whether `e` is something that initialising the sandbox can end in.
pub open spec fn is_init_result(e: JobEvent) -> bool {
    e is SandboxReady || e is SandboxFailed || e is DeadlineElapsed
}

/// Whether `e` is something that driving the event loop can end in.
pub open spec fn is_loop_result(e: JobEvent) -> bool {
    e is LoopFinished || e is LoopFailed || e is DeadlineElapsed
}

/// A job whose driver performs each action it asks for ends within three
/// observations, whatever the script does: after `Begin`, one result of
/// initialising the sandbox and one result of its event loop, the job has
/// finished and handed out exactly one outcome. The waits it asks for end by
/// its deadline, counted from its start: initialisation gets the whole
/// budget, and the event loop what initialisation left of it.
pub proof fn lemma_driven_job_finishes(timeout_ms: u64, init: JobEvent, looped: JobEvent)
    requires
        is_init_result(init),
        is_loop_result(looped),
    ensures
        ({
            let (p, acts) = run(timeout_ms, JobPhase::Created, seq![JobEvent::Begin, init, looped]);
            &&& p is Finished
            &&& deliveries(acts) == 1
            &&& acts[0] == JobAction::InitSandbox { budget_ms: timeout_ms }
            &&& acts[1] matches JobAction::RunEventLoop { budget_ms } ==> init matches JobEvent::SandboxReady { elapsed_ms }
                && elapsed_ms + budget_ms == timeout_ms
        }),
{
    let evs = seq![JobEvent::Begin, init, looped];
    lemma_delivers_exactly_once(timeout_ms, evs);
    assert(evs.drop_last() =~= seq![JobEvent::Begin, init]);
    assert(evs.drop_last().drop_last() =~= seq![JobEvent::Begin]);
    assert(evs.drop_last().drop_last().drop_last() =~= Seq::<JobEvent>::empty());
    let r0 = run(timeout_ms, JobPhase::Created, Seq::<JobEvent>::empty());
    let r1 = run(timeout_ms, JobPhase::Created, seq![JobEvent::Begin]);
    let r2 = run(timeout_ms, JobPhase::Created, seq![JobEvent::Begin, init]);
    let r3 = run(timeout_ms, JobPhase::Created, evs);
    assert(r1.1 =~= seq![JobAction::InitSandbox { budget_ms: timeout_ms }]);
    assert(r2.1[0] == r1.1[0]);
    assert(r3.1[0] == r2.1[0] && r3.1[1] == r2.1[1]);
}

} // verus!
