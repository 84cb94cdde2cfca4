//! The laws of the coordinator, proved once and for all over the
//! transition function [`spec_step`]: mutual exclusion of working-copy
//! mutation, the single queued-wait report, fail-fast task execution,
//! update failures never entering the task pipeline, and determinism of
//! a whole run.
use vstd::prelude::*;
use crate::coordinator::{
    expects, failure_msg, pending_report, running_msg, spec_step, task_cmd, update_failed_msg,
    waiting_msg, wf, ActionV, Event, MachineV, Phase,
};
use crate::structs::{CIResultV, CommitStatus, TaskV};
use crate::update::CmdV;

verus! {

/// The command outstanding in a phase: the phase's update command or task
/// command, nothing anywhere else.
pub open spec fn outstanding(m: MachineV) -> Option<CmdV> {
    match m.phase {
        Phase::Updating { step } => Some(m.plan[step as int]),
        Phase::Running { task } => Some(task_cmd(m.tasks[task as int])),
        _ => None,
    }
}

/// The phases in which the machine holds the single-flight lock and may
/// mutate the working copy.  The lock is released when `Done` is reached.
pub open spec fn holds_lock(p: Phase) -> bool {
    p is Updating || p is Running
}

/// Every step keeps the machine well-formed.
pub proof fn lemma_step_preserves_wf(m: MachineV, ev: Event)
    requires
        wf(m),
        expects(m, ev),
    ensures
        wf(spec_step(m, ev).unwrap().0),
{
}

/// A terminal machine accepts no further event: nothing is logged, run or
/// reported for a build after its terminal result.
pub proof fn lemma_done_halts(m: MachineV)
    requires
        m.phase is Done,
    ensures
        forall|ev: Event| !(#[trigger] expects(m, ev)),
{
}

/// Mutual exclusion at the model level: a command is only ever issued by
/// a step that leaves the machine in a lock-holding phase, and a
/// lock-holding phase is only entered from outside by an acquisition
/// event.  Since the shell releases the underlying mutex only at `Done`,
/// where the machine halts for good, the working-copy mutations of two
/// jobs can never interleave: whichever job acquires the lock first
/// issues all of its commands before the other issues any.
pub proof fn lemma_exec_only_while_locked(m: MachineV, ev: Event)
    requires
        wf(m),
        expects(m, ev),
    ensures
        spec_step(m, ev).unwrap().1.action is Exec ==> holds_lock(spec_step(m, ev).unwrap().0.phase),
        holds_lock(spec_step(m, ev).unwrap().0.phase) && !holds_lock(m.phase) ==> (ev
            == Event::LockFree || ev == Event::LockAcquired),
{
}

/// Every issued command is exactly the one outstanding in the phase the
/// step enters: update commands in plan order, task commands in task
/// order, a task command only after the last update command succeeded.
pub proof fn lemma_commands_in_order(m: MachineV, ev: Event)
    requires
        wf(m),
        expects(m, ev),
    ensures
        spec_step(m, ev).unwrap().1.action is Exec ==> spec_step(m, ev).unwrap().1.action
            == ActionV::Exec(outstanding(spec_step(m, ev).unwrap().0).unwrap()),
        spec_step(m, ev).unwrap().0.phase is Running ==> (m.phase is Running || (m.phase
            matches Phase::Updating { step } && step + 1 == m.plan.len() && ev == Event::CmdDone(
            true,
        ))),
        spec_step(m, ev).unwrap().0.phase matches Phase::Updating { step } ==> (step > 0 ==> m.phase
            == (Phase::Updating { step: (step - 1) as usize }) && ev == Event::CmdDone(true)),
        spec_step(m, ev).unwrap().0.phase matches Phase::Running { task } ==> (task > 0 ==> m.phase
            == (Phase::Running { task: (task - 1) as usize }) && ev == Event::CmdDone(true)),
{
}

/// Fail-fast law: when task `j` exits nonzero the machine halts at once
/// with `Failure`, naming exactly task `j`; the halted machine accepts no
/// further event, so no later task is ever issued.
pub proof fn lemma_fail_fast(m: MachineV, j: usize)
    requires
        wf(m),
        m.phase == (Phase::Running { task: j }),
    ensures
        spec_step(m, Event::CmdDone(false)).unwrap().0.phase == Phase::Done,
        spec_step(m, Event::CmdDone(false)).unwrap().1.action == ActionV::Finished(
            CIResultV {
                status: CommitStatus::Failure,
                msg: failure_msg(m.tasks[j as int].name),
            },
        ),
        forall|ev: Event|
            !(#[trigger] expects(spec_step(m, Event::CmdDone(false)).unwrap().0, ev)),
{
}

/// Infrastructure-failure law: when any working-copy update command fails
/// the machine halts at once with `Error` — never `Failure` — and, since
/// tasks are only issued from the `Running` phases that lie strictly
/// beyond a fully successful update, no task is ever executed.
pub proof fn lemma_update_failure(m: MachineV, i: usize)
    requires
        wf(m),
        m.phase == (Phase::Updating { step: i }),
    ensures
        spec_step(m, Event::CmdDone(false)).unwrap().0.phase == Phase::Done,
        spec_step(m, Event::CmdDone(false)).unwrap().1.action == ActionV::Finished(
            CIResultV { status: CommitStatus::Error, msg: update_failed_msg() },
        ),
        forall|ev: Event|
            !(#[trigger] expects(spec_step(m, Event::CmdDone(false)).unwrap().0, ev)),
{
}

/// A step hands back a terminal result exactly when it moves the machine
/// to `Done`, and that result is never `Pending`: every build ends with
/// exactly one terminal report, after which the machine halts.
pub proof fn lemma_one_terminal_report(m: MachineV, ev: Event)
    requires
        wf(m),
        expects(m, ev),
    ensures
        (spec_step(m, ev).unwrap().1.action is Finished) <==> (spec_step(m, ev).unwrap().0.phase
            is Done),
        spec_step(m, ev).unwrap().1.action matches ActionV::Finished(r) ==> r.status
            != CommitStatus::Pending,
        spec_step(m, ev).unwrap().1.report matches Some(r) ==> r.status == CommitStatus::Pending,
{
}

/// Characterization of the queued-wait report: a step reports the waiting
/// message exactly when it is the machine's very first step and the lock
/// was contended; no step leads back to the initial phase; and the
/// running report follows upon acquisition.
pub proof fn lemma_waiting_report(m: MachineV, ev: Event)
    requires
        wf(m),
        expects(m, ev),
    ensures
        (spec_step(m, ev).unwrap().1.report == pending_report(waiting_msg())) <==> (m.phase
            == Phase::Idle && ev == Event::LockBusy),
        spec_step(m, ev).unwrap().0.phase != Phase::Idle,
        m.phase == Phase::Idle && ev == Event::LockBusy ==> spec_step(m, ev).unwrap().0.phase
            == Phase::AwaitingLock,
        m.phase == Phase::AwaitingLock ==> spec_step(m, ev).unwrap().1.report == pending_report(
            running_msg(),
        ),
{
    reveal_strlit("Waiting for previous job to finish...");
    reveal_strlit("Running tasks...");
    assert(waiting_msg().len() != running_msg().len());
}

/// The final machine of a run: the machine folded over a sequence of
/// observations.
pub open spec fn run_state(m: MachineV, evs: Seq<Event>) -> MachineV
    decreases evs.len(),
{
    if evs.len() == 0 {
        m
    } else {
        run_state(spec_step(m, evs[0]).unwrap().0, evs.subrange(1, evs.len() as int))
    }
}

/// Whether each observation of the run, in turn, is one the machine
/// expects.
pub open spec fn valid_run(m: MachineV, evs: Seq<Event>) -> bool
    decreases evs.len(),
{
    evs.len() == 0 || (expects(m, evs[0]) && valid_run(
        spec_step(m, evs[0]).unwrap().0,
        evs.subrange(1, evs.len() as int),
    ))
}

/// How many waiting reports a run emits.
pub open spec fn waiting_reports(m: MachineV, evs: Seq<Event>) -> nat
    decreases evs.len(),
{
    if evs.len() == 0 {
        0
    } else {
        (if spec_step(m, evs[0]).unwrap().1.report == pending_report(waiting_msg()) {
            1nat
        } else {
            0nat
        }) + waiting_reports(spec_step(m, evs[0]).unwrap().0, evs.subrange(1, evs.len() as int))
    }
}

/// A machine past its initial phase never reports waiting again.
pub proof fn lemma_no_waiting_after_start(m: MachineV, evs: Seq<Event>)
    requires
        wf(m),
        valid_run(m, evs),
        m.phase != Phase::Idle,
    ensures
        waiting_reports(m, evs) == 0,
    decreases evs.len(),
{
    if evs.len() > 0 {
        lemma_waiting_report(m, evs[0]);
        lemma_step_preserves_wf(m, evs[0]);
        lemma_no_waiting_after_start(
            spec_step(m, evs[0]).unwrap().0,
            evs.subrange(1, evs.len() as int),
        );
    }
}

/// Contention law over whole runs: any valid run emits the
/// `Pending`/waiting report at most once, and only as its very first
/// report, before the running report that follows acquisition.
pub proof fn lemma_waiting_at_most_once(m: MachineV, evs: Seq<Event>)
    requires
        wf(m),
        valid_run(m, evs),
        m.phase == Phase::Idle,
    ensures
        waiting_reports(m, evs) <= 1,
{
    if evs.len() > 0 {
        lemma_waiting_report(m, evs[0]);
        lemma_step_preserves_wf(m, evs[0]);
        lemma_no_waiting_after_start(
            spec_step(m, evs[0]).unwrap().0,
            evs.subrange(1, evs.len() as int),
        );
    }
}

/// The commands a run issues, in order.
pub open spec fn run_execs(m: MachineV, evs: Seq<Event>) -> Seq<CmdV>
    decreases evs.len(),
{
    if evs.len() == 0 {
        Seq::empty()
    } else {
        (match spec_step(m, evs[0]).unwrap().1.action {
            ActionV::Exec(c) => seq![c],
            _ => Seq::empty(),
        }) + run_execs(spec_step(m, evs[0]).unwrap().0, evs.subrange(1, evs.len() as int))
    }
}

/// The commands of the task list, in task order.
pub open spec fn task_cmds(tasks: Seq<TaskV>) -> Seq<CmdV> {
    tasks.map_values(|t: TaskV| task_cmd(t))
}

/// The commands a machine may still issue from its phase onward: the rest
/// of the update plan, then the rest of the task list.
pub open spec fn remaining(m: MachineV) -> Seq<CmdV> {
    match m.phase {
        Phase::Idle => m.plan + task_cmds(m.tasks),
        Phase::AwaitingLock => m.plan + task_cmds(m.tasks),
        Phase::Updating { step } => m.plan.subrange(step + 1, m.plan.len() as int) + task_cmds(
            m.tasks,
        ),
        Phase::Running { task } => task_cmds(m.tasks).subrange(task + 1, m.tasks.len() as int),
        Phase::Done => Seq::empty(),
    }
}

/// Order law over whole runs: from any phase, a valid run issues exactly a
/// prefix of the commands still ahead of that phase — nothing reordered,
/// nothing skipped, nothing issued once the machine halts.
pub proof fn lemma_run_executes_in_order(m: MachineV, evs: Seq<Event>)
    requires
        wf(m),
        valid_run(m, evs),
    ensures
        run_execs(m, evs).len() <= remaining(m).len(),
        run_execs(m, evs) == remaining(m).subrange(0, run_execs(m, evs).len() as int),
    decreases evs.len(),
{
    let ex = run_execs(m, evs);
    let rem = remaining(m);
    if evs.len() == 0 {
        assert(ex =~= rem.subrange(0, 0));
    } else {
        let ev = evs[0];
        let m2 = spec_step(m, ev).unwrap().0;
        let rest = evs.subrange(1, evs.len() as int);
        lemma_step_preserves_wf(m, ev);
        lemma_run_executes_in_order(m2, rest);
        let ex2 = run_execs(m2, rest);
        let rem2 = remaining(m2);
        match spec_step(m, ev).unwrap().1.action {
            ActionV::Exec(c) => {
                assert(rem =~= seq![c] + rem2);
                assert(ex =~= seq![c] + ex2);
                assert(rem.subrange(0, ex.len() as int) =~= seq![c] + rem2.subrange(
                    0,
                    ex2.len() as int,
                ));
            },
            ActionV::AcquireBlocking => {
                assert(rem2 =~= rem);
                assert(ex =~= ex2);
            },
            ActionV::Finished(_) => {
                assert(m2.phase is Done);
                if rest.len() > 0 {
                    assert(valid_run(m2, rest));
                    assert(expects(m2, rest[0]));
                    assert(false);
                }
                assert(ex =~= rem.subrange(0, 0));
            },
        }
    }
}

/// Corollary at the start of a build: everything a run executes is a
/// prefix of the update plan followed by the task commands, each in
/// declared order.  In particular no task runs unless the whole update
/// succeeded first, and no task after a failed one ever runs.
pub proof fn lemma_run_commands_from_start(m: MachineV, evs: Seq<Event>)
    requires
        wf(m),
        valid_run(m, evs),
        m.phase == Phase::Idle,
    ensures
        run_execs(m, evs).len() <= m.plan.len() + m.tasks.len(),
        forall|i: int|
            0 <= i < run_execs(m, evs).len() ==> run_execs(m, evs)[i] == (if i < m.plan.len() {
                m.plan[i]
            } else {
                task_cmd(m.tasks[i - m.plan.len()])
            }),
{
    lemma_run_executes_in_order(m, evs);
}

/// Determinism law: the machine's whole run — every intermediate state,
/// hence every issued command and report — is a function of the starting
/// machine and the observed outcomes alone.  Re-running the pipeline
/// against an unchanged commit with a deterministic task list therefore
/// ends in the same terminal status both times.
pub proof fn lemma_rerun_deterministic(a: MachineV, b: MachineV, evs: Seq<Event>)
    requires
        a == b,
    ensures
        run_state(a, evs) == run_state(b, evs),
{
}

} // verus!
