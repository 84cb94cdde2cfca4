use ci_server::coordinator::{Action, BuildCoordinator, Event, Phase};
use ci_server::logger::Log;
use ci_server::structs::{CIResult, CommitStatus, Task};
use ci_server::update::Cmd;

fn task(name: &str, command: &str, args: &[&str]) -> Task {
    Task {
        name: name.to_string(),
        command: command.to_string(),
        args: args.iter().map(|a| a.to_string()).collect(),
    }
}

fn coordinator(have_copy: bool, tasks: Vec<Task>) -> BuildCoordinator {
    BuildCoordinator::new(
        have_copy,
        "https://example.invalid/repo.git",
        "feature",
        "main",
        tasks,
    )
}

/// Drives one build to its terminal result, the way the unverified shell
/// does: `outcomes[k]` is the exit status fed back for the `k`-th issued
/// command.  Returns the executed commands in order, the posted reports,
/// the log lines, and the terminal result.
fn drive(
    mut c: BuildCoordinator,
    first: Event,
    outcomes: &[bool],
) -> (Vec<Cmd>, Vec<CIResult>, Vec<String>, CIResult) {
    let mut executed: Vec<Cmd> = Vec::new();
    let mut reports: Vec<CIResult> = Vec::new();
    let mut log: Vec<String> = Vec::new();
    let mut ev = first;
    let mut k: usize = 0;
    loop {
        assert!(c.accepts(ev));
        let out = c.step(ev);
        for l in out.log_lines {
            log.push(l);
        }
        if let Some(r) = out.report {
            reports.push(r);
        }
        match out.action {
            Action::AcquireBlocking => {
                ev = Event::LockAcquired;
            }
            Action::Exec(cmd) => {
                executed.push(cmd);
                let ok = outcomes[k];
                k += 1;
                ev = Event::CmdDone(ok);
            }
            Action::Finished(res) => {
                assert!(c.is_done());
                return (executed, reports, log, res);
            }
        }
    }
}

#[test]
fn test1() {
    let x = 10;
    let y = 5;
    assert_eq!(15, x + y)
}

#[test]
fn all_tasks_succeed() {
    let tasks = vec![task("build", "make", &[]), task("test", "make", &["test"])];
    let c = coordinator(true, tasks);
    // 4 update commands, then 2 tasks, all succeeding.
    let (executed, reports, _log, res) = drive(c, Event::LockFree, &[true; 6]);
    assert_eq!(executed.len(), 6);
    assert!(matches!(res.status, CommitStatus::Success));
    assert_eq!(res.msg, "All tasks finished successfully.");
    // Exactly one report: the pipeline-entry "Running tasks...".
    assert_eq!(reports.len(), 1);
    assert!(matches!(reports[0].status, CommitStatus::Pending));
    assert_eq!(reports[0].msg, "Running tasks...");
}

#[test]
fn fail_fast_skips_later_tasks() {
    // Task list [T1, T2, T3] where T2 fails: T1 and T2 run, T3 never does,
    // and the failure report names T2.
    let tasks = vec![
        task("T1", "cmd1", &[]),
        task("T2", "cmd2", &[]),
        task("T3", "cmd3", &[]),
    ];
    let c = coordinator(true, tasks);
    let (executed, _reports, _log, res) = drive(
        c,
        Event::LockFree,
        &[true, true, true, true, true, false],
    );
    // 4 update commands plus T1 and T2; T3 was never issued.
    assert_eq!(executed.len(), 6);
    assert_eq!(executed[4].program, "cmd1");
    assert_eq!(executed[5].program, "cmd2");
    assert!(executed.iter().all(|c| c.program != "cmd3"));
    assert!(matches!(res.status, CommitStatus::Failure));
    assert_eq!(res.msg, "Task `T2` failed.");
}

#[test]
fn update_failure_runs_no_task() {
    // The clone step fails: no task is ever executed and the status is
    // Error, never Failure.
    let tasks = vec![task("T1", "cmd1", &[])];
    let c = coordinator(false, tasks);
    let (executed, _reports, _log, res) = drive(c, Event::LockFree, &[false]);
    assert_eq!(executed.len(), 1);
    assert_eq!(executed[0].program, "git");
    assert_eq!(executed[0].args[0], "clone");
    assert!(matches!(res.status, CommitStatus::Error));
    assert!(!matches!(res.status, CommitStatus::Failure));
    assert_eq!(res.msg, "Failed to update local repository.");
}

#[test]
fn contended_lock_reports_waiting_once() {
    // When the lock is contended, exactly one extra Pending/waiting report
    // is sent, before the Pending/running report.
    let tasks = vec![task("T1", "cmd1", &[])];
    let c = coordinator(true, tasks);
    let (_executed, reports, _log, res) = drive(c, Event::LockBusy, &[true; 5]);
    assert_eq!(reports.len(), 2);
    assert!(matches!(reports[0].status, CommitStatus::Pending));
    assert_eq!(reports[0].msg, "Waiting for previous job to finish...");
    assert!(matches!(reports[1].status, CommitStatus::Pending));
    assert_eq!(reports[1].msg, "Running tasks...");
    let waiting = reports
        .iter()
        .filter(|r| r.msg == "Waiting for previous job to finish...")
        .count();
    assert_eq!(waiting, 1);
    assert!(matches!(res.status, CommitStatus::Success));
}

#[test]
fn uncontended_lock_never_reports_waiting() {
    let tasks = vec![task("T1", "cmd1", &[])];
    let c = coordinator(true, tasks);
    let (_executed, reports, _log, _res) = drive(c, Event::LockFree, &[true; 5]);
    assert!(reports
        .iter()
        .all(|r| r.msg != "Waiting for previous job to finish..."));
}

#[test]
fn waiting_build_mutates_only_after_release() {
    // Two jobs, A holding the lock first: B issues no command before the
    // lock is acquired, so all of A's commands come before all of B's.
    let a = coordinator(true, vec![task("TA", "cmda", &[])]);
    let mut order: Vec<String> = Vec::new();
    let (executed_a, _r, _l, res_a) = drive(a, Event::LockFree, &[true; 5]);
    for c in &executed_a {
        order.push(c.program.clone());
    }

    // B finds the lock busy: its machine waits, accepts nothing but the
    // acquisition, and issues no command until then.
    let mut b = coordinator(true, vec![task("TB", "cmdb", &[])]);
    assert!(b.accepts(Event::LockBusy));
    let out = b.step(Event::LockBusy);
    assert!(matches!(out.action, Action::AcquireBlocking));
    assert!(matches!(b.current_phase(), Phase::AwaitingLock));
    assert!(!b.accepts(Event::CmdDone(true)));
    assert!(!b.accepts(Event::LockFree));
    assert!(b.accepts(Event::LockAcquired));
    // A has finished and released; B proceeds alone.
    assert!(matches!(res_a.status, CommitStatus::Success));
    let mut ev = Event::LockAcquired;
    loop {
        assert!(b.accepts(ev));
        let out = b.step(ev);
        match out.action {
            Action::AcquireBlocking => unreachable!(),
            Action::Exec(cmd) => {
                order.push(cmd.program.clone());
                ev = Event::CmdDone(true);
            }
            Action::Finished(_) => break,
        }
    }
    // All of A's commands precede all of B's task command in the order.
    let pos_b = order.iter().position(|p| p == "cmdb").unwrap();
    assert_eq!(pos_b, order.len() - 1);
    assert_eq!(order.iter().filter(|p| *p == "cmda").count(), 1);
    assert!(order.iter().position(|p| p == "cmda").unwrap() < pos_b);
}

#[test]
fn terminal_machine_accepts_nothing() {
    let c0 = coordinator(true, vec![]);
    let mut c = c0;
    let mut ev = Event::LockFree;
    loop {
        let out = c.step(ev);
        match out.action {
            Action::Exec(_) => {
                ev = Event::CmdDone(true);
            }
            Action::Finished(res) => {
                // No tasks configured: the empty pipeline succeeds.
                assert!(matches!(res.status, CommitStatus::Success));
                break;
            }
            Action::AcquireBlocking => unreachable!(),
        }
    }
    assert!(c.is_done());
    assert!(!c.accepts(Event::LockFree));
    assert!(!c.accepts(Event::LockBusy));
    assert!(!c.accepts(Event::LockAcquired));
    assert!(!c.accepts(Event::CmdDone(true)));
    assert!(!c.accepts(Event::CmdDone(false)));
}

#[test]
fn rerun_same_outcomes_same_status() {
    // Idempotence: the same job and the same deterministic outcomes give
    // the same terminal status, message, commands and reports both times.
    let tasks1 = vec![task("build", "make", &[]), task("lint", "lint", &[])];
    let tasks2 = vec![task("build", "make", &[]), task("lint", "lint", &[])];
    let outcomes = [true, true, true, true, true, false];
    let (e1, r1, l1, res1) = drive(coordinator(true, tasks1), Event::LockFree, &outcomes);
    let (e2, r2, l2, res2) = drive(coordinator(true, tasks2), Event::LockFree, &outcomes);
    assert!(matches!(res1.status, CommitStatus::Failure));
    assert!(matches!(res2.status, CommitStatus::Failure));
    assert_eq!(res1.msg, res2.msg);
    assert_eq!(e1.len(), e2.len());
    for (a, b) in e1.iter().zip(e2.iter()) {
        assert_eq!(a.program, b.program);
        assert_eq!(a.args, b.args);
    }
    assert_eq!(r1.len(), r2.len());
    assert_eq!(l1, l2);
}

#[test]
fn log_lines_of_a_full_build() {
    let tasks = vec![task("T1", "cmd1", &[])];
    let c = coordinator(true, tasks);
    let (_e, _r, log, _res) = drive(c, Event::LockFree, &[true; 5]);
    assert_eq!(
        log,
        vec![
            "Updating target repository...".to_string(),
            "---------------------------------------------------------".to_string(),
            "Running task `T1`...".to_string(),
            "All tasks finished successfully.".to_string(),
        ]
    );
}

#[test]
fn log_retrieval_is_ordered_concatenation() {
    // The retrieved text is exactly the concatenation, in order, of every
    // line appended during the build.
    let mut log = Log::new();
    assert_eq!(log.contents(), "");
    assert_eq!(log.len(), 0);
    log.log("Updating target repository...");
    log.log("cloning into target_repo");
    log.log("Running task `T1`...");
    log.log("ok");
    assert_eq!(log.len(), 4);
    assert_eq!(
        log.contents(),
        "Updating target repository...\ncloning into target_repo\nRunning task `T1`...\nok\n"
    );
}

#[test]
fn pipeline_log_through_log_sink() {
    // Update output followed by each task's output, in sequence.
    let tasks = vec![task("T1", "cmd1", &[]), task("T2", "cmd2", &[])];
    let mut c = coordinator(true, tasks);
    let mut sink = Log::new();
    let mut ev = Event::LockFree;
    let mut n: usize = 0;
    loop {
        let out = c.step(ev);
        for l in &out.log_lines {
            sink.log(l);
        }
        match out.action {
            Action::AcquireBlocking => unreachable!(),
            Action::Exec(cmd) => {
                // The fake executor logs one output line per command.
                sink.log(&format!("output of {} {}", cmd.program, n));
                n += 1;
                ev = Event::CmdDone(true);
            }
            Action::Finished(_) => break,
        }
    }
    let text = sink.contents();
    let up = text.find("Updating target repository...").unwrap();
    let t1 = text.find("Running task `T1`...").unwrap();
    let t2 = text.find("Running task `T2`...").unwrap();
    let done = text.find("All tasks finished successfully.").unwrap();
    assert!(up < t1 && t1 < t2 && t2 < done);
    assert_eq!(text.matches("output of").count(), 6);
}
