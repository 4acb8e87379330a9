use vstd::prelude::*;

use tokio::runtime::{Runtime, RuntimeFlavor};

use crate::channel::Submission;
use crate::config::Config;
use crate::job::{Job, JobPhase};

verus! {

/// tokio's runtime, carried through opaquely.
#[verifier::external_type_specification]
#[verifier::external_body]
pub struct ExRuntime(Runtime);

/// tokio's runtime kinds.
#[verifier::external_type_specification]
#[verifier::external_body]
pub struct ExRuntimeFlavor(RuntimeFlavor);

/// Whether `rt` runs all of its tasks on the thread that drives it.
pub uninterp spec fn is_current_thread(rt: Runtime) -> bool;

/// Relies on tokio's `Handle::runtime_flavor`: which scheduler the runtime uses.
#[verifier::external_body]
fn flavor_is_current_thread(rt: &Runtime) -> (r: bool)
    ensures
        r == is_current_thread(*rt),
{
    match rt.handle().runtime_flavor() {
        RuntimeFlavor::CurrentThread => true,
        _ => false,
    }
}

/// Threads a job's private runtime may start for blocking work.
pub const MAX_BLOCKING_THREADS: usize = 12;

/// Relies on tokio's runtime `Builder`: a current-thread runtime with every
/// driver enabled and the given cap on blocking threads (the builder panics
/// on a cap of zero); `build` can fail with an I/O error, given here as `None`.
#[verifier::external_body]
fn build_current_thread_runtime(max_blocking_threads: usize) -> (r: Option<Runtime>)
    requires
        max_blocking_threads > 0,
    ensures
        r matches Some(rt) ==> is_current_thread(rt),
{
    tokio::runtime::Builder::new_current_thread()
        .enable_all()
        .max_blocking_threads(max_blocking_threads)
        .build()
        .ok()
}

/// A private single-threaded runtime for one job, or `None` when the system
/// refused the resources it needs.
pub fn create_runtime() -> (r: Option<Runtime>)
    ensures
        r matches Some(rt) ==> is_current_thread(rt),
{
    build_current_thread_runtime(MAX_BLOCKING_THREADS)
}

/// Whether `rt` is a single-threaded runtime, as each job's must be.
pub fn runs_on_current_thread(rt: &Runtime) -> (r: bool)
    ensures
        r == is_current_thread(*rt),
{
    flavor_is_current_thread(rt)
}

/// What one runner thread owns: its private runtime and the job deadline.
pub struct Worker {
    pub runtime: Runtime,
    pub timeout_ms: u64,
}

impl Worker {
    pub fn new(runtime: Runtime, timeout_ms: u64) -> (r: Worker)
        ensures
            r.runtime == runtime,
            r.timeout_ms == timeout_ms,
    {
        Worker { runtime, timeout_ms }
    }

    /// A worker with a fresh runtime and the configured deadline, or `None`
    /// when no runtime could be built.
    pub fn from_config(config: &Config) -> (r: Option<Worker>)
        ensures
            r matches Some(w) ==> w.timeout_ms == config.timeout_ms && is_current_thread(w.runtime),
    {
        match create_runtime() {
            Some(runtime) => Some(Worker::new(runtime, config.timeout_ms)),
            None => None,
        }
    }

    /// Takes on `submission`: the runtime to drive it on, and the job in its
    /// first phase, holding the reply channel, under this worker's deadline.
    pub fn start(self, submission: Submission) -> (r: (Runtime, Job))
        ensures
            r.0 == self.runtime,
            r.1.wf(),
            r.1.runner.identifier@ == submission.identifier@,
            r.1.runner.timeout_ms == self.timeout_ms,
            r.1.runner.phase == JobPhase::Created,
            r.1.reply == Some(submission.reply),
    {
        let Worker { runtime, timeout_ms } = self;
        (runtime, Job::new(submission, timeout_ms))
    }
}

} // verus!
