use script_dispatch::channel::{deliver, queue_capacity, submission_channel, Delivery, Submission};
use script_dispatch::config::{Config, ConfigError, DEFAULT_CAPACITY, DEFAULT_PORT, DEFAULT_TIMEOUT_MS};
use script_dispatch::job::{settle_outcome, Job, JobAction, JobEvent, JobPhase, JobRunner};
use script_dispatch::outcome::Outcome;
use script_dispatch::platform::{create_runtime, runs_on_current_thread, Worker};
use script_dispatch::server::Server;

fn finish_quickly(job: &mut Job, ready_ms: u64, done_ms: u64) -> (JobAction, Option<Delivery>) {
    assert_eq!(job.advance(JobEvent::Begin).0, JobAction::InitSandbox { budget_ms: job.runner.timeout_ms });
    job.advance(JobEvent::SandboxReady { elapsed_ms: ready_ms });
    job.advance(JobEvent::LoopFinished { elapsed_ms: done_ms })
}

#[test]
fn default_config_values() {
    let c = Config::default();
    assert_eq!(c.timeout_ms, 5000);
    assert_eq!(c.capacity, 100);
    assert_eq!(c.ip, (127, 0, 0, 1));
    assert_eq!(c.port, 3000);
    assert_eq!(DEFAULT_TIMEOUT_MS, 5000);
    assert_eq!(DEFAULT_CAPACITY, 100);
    assert_eq!(DEFAULT_PORT, 3000);
}

#[test]
fn config_accepts_and_rejects() {
    let c = Config::new(250, 7, (0, 0, 0, 0), 8080).unwrap();
    assert_eq!((c.timeout_ms, c.capacity, c.ip, c.port), (250, 7, (0, 0, 0, 0), 8080));
    assert_eq!(Config::new(250, 0, (0, 0, 0, 0), 8080).unwrap_err(), ConfigError::ZeroCapacity);
    assert_eq!(
        Config::new(250, usize::MAX, (0, 0, 0, 0), 8080).unwrap_err(),
        ConfigError::CapacityTooLarge
    );
    assert!(Config::new(250, usize::MAX >> 3, (0, 0, 0, 0), 8080).is_ok());
    assert!(Config::new(250, (usize::MAX >> 3) + 1, (0, 0, 0, 0), 8080).is_err());
}

#[test]
fn liveness_body() {
    assert_eq!(Server::root(), "Nothing to see here");
    let s = Server::new(Config::default());
    assert_eq!(s.config.port, 3000);
}

#[test]
fn answer_bodies() {
    assert_eq!(Server::answer(Some(Outcome::Completed { elapsed_ms: 12 })), "ok");
    assert_eq!(Server::answer(Some(Outcome::TimedOut { elapsed_ms: 5000 })), "sad");
    assert_eq!(Server::answer(Some(Outcome::InitFailed)), "sad");
    assert_eq!(Server::answer(Some(Outcome::ScriptFailed { elapsed_ms: 3 })), "sad");
    assert_eq!(Server::answer(None), "sad");
}

#[test]
fn outcome_accessors() {
    assert!(Outcome::Completed { elapsed_ms: 1 }.is_success());
    assert!(!Outcome::TimedOut { elapsed_ms: 1 }.is_success());
    assert!(!Outcome::InitFailed.is_success());
    assert_eq!(Outcome::Completed { elapsed_ms: 41 }.elapsed_ms(), Some(41));
    assert_eq!(Outcome::TimedOut { elapsed_ms: 5001 }.elapsed_ms(), Some(5001));
    assert_eq!(Outcome::ScriptFailed { elapsed_ms: 9 }.elapsed_ms(), Some(9));
    assert_eq!(Outcome::InitFailed.elapsed_ms(), None);
}

#[test]
fn settle_race() {
    assert_eq!(settle_outcome(5000, 4999, false), Outcome::Completed { elapsed_ms: 4999 });
    assert_eq!(settle_outcome(5000, 5000, false), Outcome::TimedOut { elapsed_ms: 5000 });
    assert_eq!(settle_outcome(5000, 10, true), Outcome::ScriptFailed { elapsed_ms: 10 });
    assert_eq!(settle_outcome(5000, 6000, true), Outcome::TimedOut { elapsed_ms: 6000 });
}

#[test]
fn runner_completes_under_deadline() {
    let mut r = JobRunner::new("hello.js".to_string(), 5000);
    assert_eq!(r.phase, JobPhase::Created);
    assert_eq!(r.step(JobEvent::Begin), JobAction::InitSandbox { budget_ms: 5000 });
    assert_eq!(r.phase, JobPhase::SandboxInitializing);
    assert_eq!(
        r.step(JobEvent::SandboxReady { elapsed_ms: 1200 }),
        JobAction::RunEventLoop { budget_ms: 3800 }
    );
    assert_eq!(r.phase, JobPhase::Running);
    let o = Outcome::Completed { elapsed_ms: 1500 };
    assert_eq!(r.step(JobEvent::LoopFinished { elapsed_ms: 1500 }), JobAction::Deliver { outcome: o });
    assert_eq!(r.phase, JobPhase::Finished { outcome: o });
    assert!(r.is_finished());
    assert_eq!(r.identifier, "hello.js");
}

#[test]
fn runner_times_out() {
    let mut r = JobRunner::new("spin.js".to_string(), 5000);
    r.step(JobEvent::Begin);
    r.step(JobEvent::SandboxReady { elapsed_ms: 10 });
    let o = Outcome::TimedOut { elapsed_ms: 5002 };
    assert_eq!(r.step(JobEvent::DeadlineElapsed { elapsed_ms: 5002 }), JobAction::Deliver { outcome: o });
    assert_eq!(r.step(JobEvent::LoopFinished { elapsed_ms: 5003 }), JobAction::Ignore);
    assert_eq!(r.phase, JobPhase::Finished { outcome: o });
}

#[test]
fn runner_late_finish_is_timeout() {
    let mut r = JobRunner::new("slow.js".to_string(), 100);
    r.step(JobEvent::Begin);
    r.step(JobEvent::SandboxReady { elapsed_ms: 20 });
    assert_eq!(
        r.step(JobEvent::LoopFinished { elapsed_ms: 100 }),
        JobAction::Deliver { outcome: Outcome::TimedOut { elapsed_ms: 100 } }
    );
}

#[test]
fn runner_init_spends_whole_budget() {
    let mut r = JobRunner::new("big.js".to_string(), 100);
    r.step(JobEvent::Begin);
    assert_eq!(
        r.step(JobEvent::SandboxReady { elapsed_ms: 150 }),
        JobAction::Deliver { outcome: Outcome::TimedOut { elapsed_ms: 150 } }
    );
}

#[test]
fn runner_init_failure() {
    let mut r = JobRunner::new("missing.js".to_string(), 5000);
    assert_eq!(r.step(JobEvent::SandboxFailed), JobAction::Ignore);
    assert_eq!(r.phase, JobPhase::Created);
    r.step(JobEvent::Begin);
    assert_eq!(r.step(JobEvent::SandboxFailed), JobAction::Deliver { outcome: Outcome::InitFailed });
    assert_eq!(r.step(JobEvent::Begin), JobAction::Ignore);
}

#[test]
fn runner_script_error() {
    let mut r = JobRunner::new("throws.js".to_string(), 5000);
    r.step(JobEvent::Begin);
    r.step(JobEvent::SandboxReady { elapsed_ms: 1 });
    assert_eq!(
        r.step(JobEvent::LoopFailed { elapsed_ms: 2 }),
        JobAction::Deliver { outcome: Outcome::ScriptFailed { elapsed_ms: 2 } }
    );
}

#[test]
fn job_delivers_once_to_its_caller() {
    let (sub, mut rx) = Submission::new("hello.js".to_string());
    assert_eq!(sub.identifier, "hello.js");
    let mut job = Job::new(sub, 5000);
    let (a, d) = finish_quickly(&mut job, 3, 40);
    let o = Outcome::Completed { elapsed_ms: 40 };
    assert_eq!(a, JobAction::Deliver { outcome: o });
    assert_eq!(d, Some(Delivery::Delivered));
    assert!(job.reply.is_none());
    assert_eq!(job.advance(JobEvent::LoopFinished { elapsed_ms: 41 }), (JobAction::Ignore, None));
    assert_eq!(rx.try_recv().unwrap(), o);
    assert_eq!(Server::answer(Some(o)), "ok");
}

#[test]
fn job_with_gone_caller_does_not_fail() {
    let (sub, rx) = Submission::new("hello.js".to_string());
    drop(rx);
    let mut job = Job::new(sub, 5000);
    let (a, d) = finish_quickly(&mut job, 3, 40);
    let o = Outcome::Completed { elapsed_ms: 40 };
    assert_eq!(a, JobAction::Deliver { outcome: o });
    assert_eq!(d, Some(Delivery::CallerGone { outcome: o }));
}

#[test]
fn deliver_reaches_waiting_caller() {
    let (sub, mut rx) = Submission::new("a.js".to_string());
    assert_eq!(deliver(sub.reply, Outcome::InitFailed), Delivery::Delivered);
    assert_eq!(rx.try_recv().unwrap(), Outcome::InitFailed);
}

#[test]
fn deliver_to_gone_caller_is_noop() {
    let (sub, rx) = Submission::new("a.js".to_string());
    drop(rx);
    let o = Outcome::TimedOut { elapsed_ms: 5000 };
    assert_eq!(deliver(sub.reply, o), Delivery::CallerGone { outcome: o });
}

#[test]
fn dropped_job_closes_reply_channel() {
    let (sub, mut rx) = Submission::new("crash.js".to_string());
    let job = Job::new(sub, 5000);
    drop(job);
    assert!(rx.try_recv().is_err());
    assert_eq!(Server::answer(None), "sad");
}

#[test]
fn submission_channel_applies_backpressure() {
    let config = Config::new(5000, 2, (127, 0, 0, 1), 3000).unwrap();
    let (tx, mut rx) = submission_channel(&config);
    assert_eq!(queue_capacity(&tx), 2);
    let mut receivers = Vec::new();
    for name in ["a.js", "b.js"] {
        let (sub, r) = Submission::new(name.to_string());
        receivers.push(r);
        assert!(tx.try_send(sub).is_ok());
    }
    let (third, _r3) = Submission::new("c.js".to_string());
    let third = match tx.try_send(third) {
        Err(tokio::sync::mpsc::error::TrySendError::Full(s)) => s,
        _ => panic!("a full queue must hand the submission back"),
    };
    assert_eq!(third.identifier, "c.js");
    assert_eq!(rx.try_recv().unwrap().identifier, "a.js");
    assert!(tx.try_send(third).is_ok());
    let (fourth, _r4) = Submission::new("d.js".to_string());
    assert!(tx.try_send(fourth).is_err());
    assert_eq!(rx.try_recv().unwrap().identifier, "b.js");
    assert_eq!(rx.try_recv().unwrap().identifier, "c.js");
    assert!(rx.try_recv().is_err());
}

#[test]
fn submission_channel_suspends_sender_until_slot_frees() {
    let config = Config::new(5000, 1, (127, 0, 0, 1), 3000).unwrap();
    let (tx, mut rx) = submission_channel(&config);
    let rt = create_runtime().unwrap();
    rt.block_on(async move {
        let (first, _r1) = Submission::new("one.js".to_string());
        tx.send(first).await.unwrap();
        let (second, _r2) = Submission::new("two.js".to_string());
        let waiting = tx.send(second);
        let timed = tokio::time::timeout(std::time::Duration::from_millis(50), waiting).await;
        assert!(timed.is_err());
        assert_eq!(rx.recv().await.unwrap().identifier, "one.js");
        let (third, _r3) = Submission::new("three.js".to_string());
        tx.send(third).await.unwrap();
        assert_eq!(rx.recv().await.unwrap().identifier, "three.js");
    });
}

#[test]
fn each_of_many_jobs_gets_one_outcome() {
    let mut jobs = Vec::new();
    let mut receivers = Vec::new();
    for i in 0..10u64 {
        let (sub, rx) = Submission::new(format!("job{}.js", i));
        jobs.push(Job::new(sub, 5000));
        receivers.push(rx);
    }
    for (i, job) in jobs.iter_mut().enumerate() {
        job.advance(JobEvent::Begin);
        match i % 3 {
            0 => {
                job.advance(JobEvent::SandboxReady { elapsed_ms: 1 });
                job.advance(JobEvent::LoopFinished { elapsed_ms: 2 });
            }
            1 => {
                job.advance(JobEvent::SandboxReady { elapsed_ms: 1 });
                job.advance(JobEvent::DeadlineElapsed { elapsed_ms: 5000 });
            }
            _ => {
                job.advance(JobEvent::SandboxFailed);
            }
        }
        job.advance(JobEvent::DeadlineElapsed { elapsed_ms: 6000 });
    }
    for (i, rx) in receivers.iter_mut().enumerate() {
        let expected = match i % 3 {
            0 => Outcome::Completed { elapsed_ms: 2 },
            1 => Outcome::TimedOut { elapsed_ms: 5000 },
            _ => Outcome::InitFailed,
        };
        assert_eq!(rx.try_recv().unwrap(), expected);
        assert!(rx.try_recv().is_err());
    }
}

#[test]
fn slow_job_does_not_delay_another() {
    let (sub_a, mut rx_a) = Submission::new("A.js".to_string());
    let (sub_b, mut rx_b) = Submission::new("B.js".to_string());
    let mut a = Job::new(sub_a, 5000);
    let mut b = Job::new(sub_b, 5000);
    a.advance(JobEvent::Begin);
    b.advance(JobEvent::Begin);
    a.advance(JobEvent::SandboxReady { elapsed_ms: 5 });
    b.advance(JobEvent::SandboxReady { elapsed_ms: 6 });
    b.advance(JobEvent::LoopFinished { elapsed_ms: 30 });
    assert_eq!(rx_b.try_recv().unwrap(), Outcome::Completed { elapsed_ms: 30 });
    assert_eq!(a.runner.phase, JobPhase::Running);
    assert!(rx_a.try_recv().is_err());
    a.advance(JobEvent::DeadlineElapsed { elapsed_ms: 5000 });
    assert_eq!(rx_a.try_recv().unwrap(), Outcome::TimedOut { elapsed_ms: 5000 });
}

#[test]
fn worker_starts_job() {
    let w = Worker::from_config(&Config::default()).unwrap();
    assert_eq!(w.timeout_ms, 5000);
    let (sub, _rx) = Submission::new("w.js".to_string());
    let (rt, job) = w.start(sub);
    assert_eq!(job.runner.timeout_ms, 5000);
    assert_eq!(job.runner.identifier, "w.js");
    assert_eq!(job.runner.phase, JobPhase::Created);
    assert!(job.reply.is_some());
    assert_eq!(rt.block_on(async { 7 }), 7);
    let w2 = Worker::new(create_runtime().unwrap(), 12);
    assert_eq!(w2.timeout_ms, 12);
}

#[test]
fn accept_prepares_job() {
    let config = Config::new(750, 4, (127, 0, 0, 1), 3000).unwrap();
    let (sub, mut rx) = Submission::new("x.js".to_string());
    let (rt, mut job) = match script_dispatch::dispatch::accept(&config, sub) {
        Ok(p) => p,
        Err(_) => panic!("a runtime should be available"),
    };
    assert_eq!(job.runner.timeout_ms, 750);
    assert_eq!(job.runner.identifier, "x.js");
    assert_eq!(job.runner.phase, JobPhase::Created);
    let (a, d) = finish_quickly(&mut job, 1, 749);
    assert_eq!(a, JobAction::Deliver { outcome: Outcome::Completed { elapsed_ms: 749 } });
    assert_eq!(d, Some(Delivery::Delivered));
    assert_eq!(rx.try_recv().unwrap(), Outcome::Completed { elapsed_ms: 749 });
    drop(rt);
}

#[test]
fn spawn_failure_is_a_failure_answer() {
    assert!(!Outcome::SpawnFailed.is_success());
    assert_eq!(Outcome::SpawnFailed.elapsed_ms(), None);
    assert_eq!(Server::answer(Some(Outcome::SpawnFailed)), "sad");
}

#[test]
fn queue_is_built_with_configured_capacity() {
    let (tx, _rx) = submission_channel(&Config::default());
    assert_eq!(queue_capacity(&tx), 100);
    let config = Config::new(5000, 37, (127, 0, 0, 1), 3000).unwrap();
    let (tx, _rx) = submission_channel(&config);
    assert_eq!(queue_capacity(&tx), 37);
}

#[test]
fn job_runtimes_are_single_threaded() {
    let rt = create_runtime().unwrap();
    assert!(runs_on_current_thread(&rt));
    let w = Worker::from_config(&Config::default()).unwrap();
    assert!(runs_on_current_thread(&w.runtime));
    let multi = tokio::runtime::Builder::new_multi_thread().worker_threads(1).build().unwrap();
    assert!(!runs_on_current_thread(&multi));
}
