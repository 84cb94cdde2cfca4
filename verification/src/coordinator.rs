//! The build coordinator: the single-flight concurrency guard and the
//! orchestration sequence "acquire lock, update working copy, run tasks
//! fail-fast, classify".
//!
//! The coordinator is a state machine.  The unverified shell owns the
//! process-wide mutex and the subprocess runner; it feeds each observation
//! (lock free or busy, lock acquired, command exit status) into [`BuildCoordinator::step`]
//! and performs the single action the machine hands back (post a report,
//! run a command, block on the lock, or stop with the terminal result).
//! Every decision — which command runs next, when the pipeline stops, what
//! is reported and logged — is made here and proved against [`spec_step`].
use vstd::prelude::*;
use vstd::pervasive::unreached;
use crate::structs::{CIResult, CIResultV, CommitStatus, Task, TaskV};
use crate::update::{Cmd, CmdV, spec_update_plan, update_plan};

verus! {

/// Report sent when another build holds the lock.
pub open spec fn waiting_msg() -> Seq<char> {
    "Waiting for previous job to finish..."@
}

/// Report sent once the lock is held and the pipeline starts.
pub open spec fn running_msg() -> Seq<char> {
    "Running tasks..."@
}

/// Terminal message when the working-copy update fails.
pub open spec fn update_failed_msg() -> Seq<char> {
    "Failed to update local repository."@
}

/// Terminal message when every task exits with status zero.
pub open spec fn success_msg() -> Seq<char> {
    "All tasks finished successfully."@
}

/// Terminal message when the named task exits nonzero.
pub open spec fn failure_msg(name: Seq<char>) -> Seq<char> {
    "Task `"@ + name + "` failed."@
}

/// Log line written when the update sequence starts.
pub open spec fn updating_log_msg() -> Seq<char> {
    "Updating target repository..."@
}

/// Log separator written before each task.
pub open spec fn separator_msg() -> Seq<char> {
    "---------------------------------------------------------"@
}

/// Log line announcing the named task.
pub open spec fn running_task_msg(name: Seq<char>) -> Seq<char> {
    "Running task `"@ + name + "`..."@
}

/// An observation the shell feeds into the machine.
#[derive(Clone, Copy, PartialEq, Eq, Structural, Debug)]
pub enum Event {
    /// The non-blocking lock attempt succeeded.
    LockFree,
    /// The non-blocking lock attempt failed: another build is running.
    LockBusy,
    /// The blocking lock acquisition returned.
    LockAcquired,
    /// The last issued command finished; `true` means exit status zero.
    CmdDone(bool),
}

/// Where the pipeline stands.
#[derive(Clone, Copy, PartialEq, Eq, Structural, Debug)]
pub enum Phase {
    /// Nothing observed yet; the shell is attempting the non-blocking lock.
    Idle,
    /// The waiting report went out; the shell is blocking on the lock.
    AwaitingLock,
    /// Update command `step` has been issued and is outstanding.
    Updating { step: usize },
    /// Task `task` has been issued and is outstanding.
    Running { task: usize },
    /// Terminal: the result went out and the lock is to be released.
    Done,
}

/// What the shell must do next.
pub enum Action {
    /// Block until the lock is held, then feed back [`Event::LockAcquired`].
    AcquireBlocking,
    /// Run this command in the working copy, append its output to the
    /// build log, and feed back [`Event::CmdDone`] with its exit status.
    Exec(Cmd),
    /// The pipeline is over: log and report this terminal result, then
    /// release the lock.
    Finished(CIResult),
}

/// Mathematical image of an [`Action`].
#[verifier::ext_equal]
pub enum ActionV {
    AcquireBlocking,
    Exec(CmdV),
    Finished(CIResultV),
}

impl View for Action {
    type V = ActionV;

    open spec fn view(&self) -> ActionV {
        match self {
            Action::AcquireBlocking => ActionV::AcquireBlocking,
            Action::Exec(c) => ActionV::Exec(c@),
            Action::Finished(r) => ActionV::Finished(r@),
        }
    }
}

/// Everything one step of the machine tells the shell: lines to append to
/// the build log, an optional status report to post, and the next action.
pub struct Output {
    pub log_lines: Vec<String>,
    pub report: Option<CIResult>,
    pub action: Action,
}

/// Mathematical image of an [`Output`].
#[verifier::ext_equal]
pub struct OutputV {
    pub log_lines: Seq<Seq<char>>,
    pub report: Option<CIResultV>,
    pub action: ActionV,
}

impl View for Output {
    type V = OutputV;

    open spec fn view(&self) -> OutputV {
        OutputV {
            log_lines: self.log_lines@.map_values(|s: String| s@),
            report: match &self.report {
                Some(r) => Some(r@),
                None => None,
            },
            action: self.action@,
        }
    }
}

/// Mathematical image of a [`BuildCoordinator`].
#[verifier::ext_equal]
pub struct MachineV {
    pub plan: Seq<CmdV>,
    pub tasks: Seq<TaskV>,
    pub phase: Phase,
}

/// Well-formedness: the plan is never empty and the phase indices stay in
/// range.  Established by [`BuildCoordinator::new`] and preserved by every
/// step.
pub open spec fn wf(m: MachineV) -> bool {
    &&& 1 <= m.plan.len() <= usize::MAX
    &&& m.tasks.len() <= usize::MAX
    &&& match m.phase {
        Phase::Updating { step } => step < m.plan.len(),
        Phase::Running { task } => task < m.tasks.len(),
        _ => true,
    }
}

/// The events the machine can take in each phase.  A terminal machine
/// accepts none: nothing runs after the pipeline is over.
pub open spec fn expects(m: MachineV, ev: Event) -> bool {
    match m.phase {
        Phase::Idle => ev == Event::LockFree || ev == Event::LockBusy,
        Phase::AwaitingLock => ev == Event::LockAcquired,
        Phase::Updating { .. } => ev is CmdDone,
        Phase::Running { .. } => ev is CmdDone,
        Phase::Done => false,
    }
}

/// The command a configured task runs.
pub open spec fn task_cmd(t: TaskV) -> CmdV {
    CmdV { program: t.command, args: t.args }
}

pub open spec fn with_phase(m: MachineV, p: Phase) -> MachineV {
    MachineV { plan: m.plan, tasks: m.tasks, phase: p }
}

pub open spec fn pending_report(msg: Seq<char>) -> Option<CIResultV> {
    Some(CIResultV { status: CommitStatus::Pending, msg })
}

/// Output of the contended-lock step: the one extra waiting report.
pub open spec fn waiting_output() -> OutputV {
    OutputV {
        log_lines: Seq::empty(),
        report: pending_report(waiting_msg()),
        action: ActionV::AcquireBlocking,
    }
}

/// Output of the step that enters the pipeline proper: report that tasks
/// are running, log the update start, issue the first update command.
pub open spec fn begin_output(plan: Seq<CmdV>) -> OutputV {
    OutputV {
        log_lines: seq![updating_log_msg()],
        report: pending_report(running_msg()),
        action: ActionV::Exec(plan[0]),
    }
}

/// Output that silently issues one more update command.
pub open spec fn exec_output(c: CmdV) -> OutputV {
    OutputV { log_lines: Seq::empty(), report: None, action: ActionV::Exec(c) }
}

/// Output that announces and issues task `j`.
pub open spec fn task_output_v(tasks: Seq<TaskV>, j: int) -> OutputV {
    OutputV {
        log_lines: seq![separator_msg(), running_task_msg(tasks[j].name)],
        report: None,
        action: ActionV::Exec(task_cmd(tasks[j])),
    }
}

/// Terminal output: the result is logged and handed to the shell to report.
pub open spec fn terminal_output_v(status: CommitStatus, msg: Seq<char>) -> OutputV {
    OutputV {
        log_lines: seq![msg],
        report: None,
        action: ActionV::Finished(CIResultV { status, msg }),
    }
}

/// The transition function of the coordinator: from a machine and an
/// observation to the next machine and the shell's output.  `None` marks
/// the pairs that [`expects`] rules out.
pub open spec fn spec_step(m: MachineV, ev: Event) -> Option<(MachineV, OutputV)> {
    match (m.phase, ev) {
        (Phase::Idle, Event::LockBusy) => Some(
            (with_phase(m, Phase::AwaitingLock), waiting_output()),
        ),
        (Phase::Idle, Event::LockFree) => Some(
            (with_phase(m, Phase::Updating { step: 0 }), begin_output(m.plan)),
        ),
        (Phase::AwaitingLock, Event::LockAcquired) => Some(
            (with_phase(m, Phase::Updating { step: 0 }), begin_output(m.plan)),
        ),
        (Phase::Updating { step }, Event::CmdDone(ok)) => Some(
            if !ok {
                (
                    with_phase(m, Phase::Done),
                    terminal_output_v(CommitStatus::Error, update_failed_msg()),
                )
            } else if step + 1 < m.plan.len() {
                (
                    with_phase(m, Phase::Updating { step: (step + 1) as usize }),
                    exec_output(m.plan[step + 1]),
                )
            } else if m.tasks.len() == 0 {
                (with_phase(m, Phase::Done), terminal_output_v(CommitStatus::Success, success_msg()))
            } else {
                (with_phase(m, Phase::Running { task: 0 }), task_output_v(m.tasks, 0))
            },
        ),
        (Phase::Running { task }, Event::CmdDone(ok)) => Some(
            if !ok {
                (
                    with_phase(m, Phase::Done),
                    terminal_output_v(
                        CommitStatus::Failure,
                        failure_msg(m.tasks[task as int].name),
                    ),
                )
            } else if task + 1 < m.tasks.len() {
                (
                    with_phase(m, Phase::Running { task: (task + 1) as usize }),
                    task_output_v(m.tasks, task + 1),
                )
            } else {
                (with_phase(m, Phase::Done), terminal_output_v(CommitStatus::Success, success_msg()))
            },
        ),
        _ => None,
    }
}

fn clone_strings(v: &Vec<String>) -> (r: Vec<String>)
    ensures
        r@.map_values(|s: String| s@) == v@.map_values(|s: String| s@),
{
    let mut r: Vec<String> = Vec::new();
    let mut i: usize = 0;
    while i < v.len()
        invariant
            i <= v.len(),
            r@.len() == i,
            forall|k: int| 0 <= k < i ==> r@[k]@ == v@[k]@,
        decreases v.len() - i,
    {
        r.push(v[i].clone());
        i += 1;
    }
    proof {
        assert(r@.map_values(|s: String| s@) =~= v@.map_values(|s: String| s@));
    }
    r
}

fn mk_result(status: CommitStatus, msg: &str) -> (r: CIResult)
    ensures
        r@ == (CIResultV { status, msg: msg@ }),
{
    CIResult { status, msg: String::from_str(msg) }
}

fn terminal_output(status: CommitStatus, msg: String) -> (out: Output)
    ensures
        out@ == terminal_output_v(status, msg@),
{
    let logged = msg.clone();
    let mut log_lines: Vec<String> = Vec::new();
    log_lines.push(logged);
    let out = Output {
        log_lines,
        report: None,
        action: Action::Finished(CIResult { status, msg }),
    };
    proof {
        assert(out@ =~~= terminal_output_v(status, msg@));
    }
    out
}

/// The single-flight build pipeline for one job.  One value of this type
/// exists per accepted push event; the process-wide lock collapses all of
/// them onto one active pipeline at a time.
pub struct BuildCoordinator {
    plan: Vec<Cmd>,
    tasks: Vec<Task>,
    phase: Phase,
}

impl View for BuildCoordinator {
    type V = MachineV;

    closed spec fn view(&self) -> MachineV {
        MachineV {
            plan: self.plan@.map_values(|c: Cmd| c@),
            tasks: self.tasks@.map_values(|t: Task| t@),
            phase: self.phase,
        }
    }
}

impl BuildCoordinator {
    /// Sets up the pipeline for one job: the update plan is fixed from the
    /// job's branches and the working-copy state, the task list from the
    /// configuration, and the machine starts idle.
    pub fn new(
        have_copy: bool,
        clone_url: &str,
        branch: &str,
        main_branch: &str,
        tasks: Vec<Task>,
    ) -> (c: BuildCoordinator)
        ensures
            c@.plan == spec_update_plan(have_copy, clone_url@, branch@, main_branch@),
            c@.tasks == tasks@.map_values(|t: Task| t@),
            c@.phase == Phase::Idle,
            wf(c@),
    {
        let plan = update_plan(have_copy, clone_url, branch, main_branch);
        proof {
            assert(tasks@.len() == tasks.len());
        }
        BuildCoordinator { plan, tasks, phase: Phase::Idle }
    }

    /// The machine's current phase.
    pub fn current_phase(&self) -> (p: Phase)
        ensures
            p == self@.phase,
    {
        self.phase
    }

    /// Whether the pipeline has reached its terminal phase.
    pub fn is_done(&self) -> (b: bool)
        ensures
            b == (self@.phase is Done),
    {
        matches!(self.phase, Phase::Done)
    }

    /// Whether the machine can take this event now; the shell must check
    /// this before stepping.
    pub fn accepts(&self, ev: Event) -> (b: bool)
        ensures
            b == expects(self@, ev),
    {
        match (self.phase, ev) {
            (Phase::Idle, Event::LockFree) => true,
            (Phase::Idle, Event::LockBusy) => true,
            (Phase::AwaitingLock, Event::LockAcquired) => true,
            (Phase::Updating { .. }, Event::CmdDone(_)) => true,
            (Phase::Running { .. }, Event::CmdDone(_)) => true,
            _ => false,
        }
    }

    fn clone_cmd(&self, i: usize) -> (c: Cmd)
        requires
            i < self@.plan.len(),
        ensures
            c@ == self@.plan[i as int],
    {
        let program = self.plan[i].program.clone();
        let args = clone_strings(&self.plan[i].args);
        let c = Cmd { program, args };
        proof {
            assert(c@ =~~= self@.plan[i as int]);
        }
        c
    }

    fn task_output(&self, j: usize) -> (out: Output)
        requires
            j < self@.tasks.len(),
        ensures
            out@ == task_output_v(self@.tasks, j as int),
    {
        let mut log_lines: Vec<String> = Vec::new();
        log_lines.push(
            String::from_str("---------------------------------------------------------"),
        );
        let mut line = String::from_str("Running task `");
        line.append(self.tasks[j].name.as_str());
        line.append("`...");
        log_lines.push(line);
        let cmd = Cmd {
            program: self.tasks[j].command.clone(),
            args: clone_strings(&self.tasks[j].args),
        };
        let out = Output { log_lines, report: None, action: Action::Exec(cmd) };
        proof {
            assert(out@ =~~= task_output_v(self@.tasks, j as int));
        }
        out
    }

    /// One transition: takes the shell's observation, moves the machine,
    /// and returns what the shell must log, report and do next — exactly
    /// as [`spec_step`] states.
    pub fn step(&mut self, ev: Event) -> (out: Output)
        requires
            wf(old(self)@),
            expects(old(self)@, ev),
        ensures
            wf(final(self)@),
            spec_step(old(self)@, ev) == Some((final(self)@, out@)),
    {
        let ghost m0 = self@;
        match (self.phase, ev) {
            (Phase::Idle, Event::LockBusy) => {
                self.phase = Phase::AwaitingLock;
                let res = mk_result(CommitStatus::Pending, "Waiting for previous job to finish...");
                let out = Output {
                    log_lines: Vec::new(),
                    report: Some(res),
                    action: Action::AcquireBlocking,
                };
                proof {
                    assert(self@ =~~= with_phase(m0, Phase::AwaitingLock));
                    assert(out@ =~~= waiting_output());
                }
                out
            },
            (Phase::Idle, Event::LockFree) => self.begin_update(),
            (Phase::AwaitingLock, Event::LockAcquired) => self.begin_update(),
            (Phase::Updating { step }, Event::CmdDone(ok)) => {
                let n = self.plan.len();
                proof {
                    assert(step < n);
                }
                if !ok {
                    self.phase = Phase::Done;
                    let out = terminal_output(
                        CommitStatus::Error,
                        String::from_str("Failed to update local repository."),
                    );
                    proof {
                        assert(self@ =~~= with_phase(m0, Phase::Done));
                    }
                    out
                } else if step + 1 < n {
                    self.phase = Phase::Updating { step: step + 1 };
                    let cmd = self.clone_cmd(step + 1);
                    let out = Output { log_lines: Vec::new(), report: None, action: Action::Exec(cmd) };
                    proof {
                        assert(self@ =~~= with_phase(m0, Phase::Updating { step: (step + 1) as usize }));
                        assert(out@ =~~= exec_output(m0.plan[step + 1]));
                    }
                    out
                } else if self.tasks.len() == 0 {
                    self.phase = Phase::Done;
                    let out = terminal_output(
                        CommitStatus::Success,
                        String::from_str("All tasks finished successfully."),
                    );
                    proof {
                        assert(self@ =~~= with_phase(m0, Phase::Done));
                    }
                    out
                } else {
                    self.phase = Phase::Running { task: 0 };
                    let out = self.task_output(0);
                    proof {
                        assert(self@ =~~= with_phase(m0, Phase::Running { task: 0 }));
                    }
                    out
                }
            },
            (Phase::Running { task }, Event::CmdDone(ok)) => {
                let n = self.tasks.len();
                proof {
                    assert(task < n);
                }
                if !ok {
                    let mut msg = String::from_str("Task `");
                    msg.append(self.tasks[task].name.as_str());
                    msg.append("` failed.");
                    self.phase = Phase::Done;
                    let out = terminal_output(CommitStatus::Failure, msg);
                    proof {
                        assert(self@ =~~= with_phase(m0, Phase::Done));
                    }
                    out
                } else if task + 1 < n {
                    self.phase = Phase::Running { task: task + 1 };
                    let out = self.task_output(task + 1);
                    proof {
                        assert(self@ =~~= with_phase(m0, Phase::Running { task: (task + 1) as usize }));
                    }
                    out
                } else {
                    self.phase = Phase::Done;
                    let out = terminal_output(
                        CommitStatus::Success,
                        String::from_str("All tasks finished successfully."),
                    );
                    proof {
                        assert(self@ =~~= with_phase(m0, Phase::Done));
                    }
                    out
                }
            },
            _ => {
                proof {
                    assert(false);
                }
                unreached()
            },
        }
    }

    fn begin_update(&mut self) -> (out: Output)
        requires
            wf(old(self)@),
        ensures
            final(self)@ == with_phase(old(self)@, Phase::Updating { step: 0 }),
            out@ == begin_output(old(self)@.plan),
    {
        let ghost m0 = self@;
        self.phase = Phase::Updating { step: 0 };
        let mut log_lines: Vec<String> = Vec::new();
        log_lines.push(String::from_str("Updating target repository..."));
        let res = mk_result(CommitStatus::Pending, "Running tasks...");
        let cmd = self.clone_cmd(0);
        let out = Output { log_lines, report: Some(res), action: Action::Exec(cmd) };
        proof {
            assert(self@ =~~= with_phase(m0, Phase::Updating { step: 0 }));
            assert(out@ =~~= begin_output(m0.plan));
        }
        out
    }
}

} // verus!
