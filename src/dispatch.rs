use vstd::prelude::*;

use tokio::runtime::Runtime;

use crate::channel::{deliver, Delivery, Submission};
use crate::config::Config;
use crate::job::{Job, JobPhase};
use crate::outcome::Outcome;
use crate::platform::{is_current_thread, Worker};

verus! {

/// Takes one submission off the queue and prepares its execution context:
/// the private runtime its thread will drive, and the job in its first phase
/// under the configured deadline. When no runtime can be had, the caller is
/// answered with a spawn failure at once, so that no submission is lost.
pub fn accept(config: &Config, submission: Submission) -> (r: Result<(Runtime, Job), Delivery>)
    ensures
        r matches Ok((rt, job)) ==> {
            &&& is_current_thread(rt)
            &&& job.reply == Some(submission.reply)
            &&& job.wf()
            &&& job.runner.phase == JobPhase::Created
            &&& job.runner.identifier@ == submission.identifier@
            &&& job.runner.timeout_ms == config.timeout_ms
        },
        r matches Err(Delivery::CallerGone { outcome }) ==> outcome == Outcome::SpawnFailed,
{
    match Worker::from_config(config) {
        Some(worker) => Ok(worker.start(submission)),
        None => Err(deliver(submission.reply, Outcome::SpawnFailed)),
    }
}

} // verus!
