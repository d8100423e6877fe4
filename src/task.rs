//! The per-task supervisor: which steps each command takes, and the state
//! that arbitrates between command handling and the exit watcher, so that a
//! process that a command is tearing down is never reported as exited.
use vstd::prelude::*;
use crate::config::TaskConfig;

verus! {

#[verifier::external_type_specification]
#[verifier::external_body]
#[verifier::reject_recursive_types(T)]
pub struct ExOneshotSender<T>(tokio::sync::oneshot::Sender<T>);

/// A command for one task's supervisor.
pub enum TaskCommand {
    Stop,
    Restart,
    /// Restart, signalling the caller once the old process is down and once
    /// the new one is launched.
    RestartWith {
        on_stop: Option<tokio::sync::oneshot::Sender<()>>,
        on_start: Option<tokio::sync::oneshot::Sender<()>>,
    },
    /// Stop the process and end the supervisor.
    Break,
}

/// One step of handling a command; the runtime carries them out in order.
#[derive(PartialEq, Eq, Structural, Debug, Clone, Copy)]
pub enum Step {
    /// Bring the current process down, if there is one.
    StopProcess,
    /// Signal the caller's stop acknowledgement.
    AckStop,
    /// Launch the configured command.
    Launch,
    /// Start a watcher for the launched process.
    Watch,
    /// Signal the caller's start acknowledgement.
    AckStart,
    /// Leave the command loop for good.
    Exit,
}

/// The steps that a command takes.
pub open spec fn plan_of(c: TaskCommand) -> Seq<Step> {
    match c {
        TaskCommand::Stop => seq![Step::StopProcess],
        TaskCommand::Restart => seq![Step::StopProcess, Step::Launch, Step::Watch],
        TaskCommand::RestartWith { .. } => seq![
            Step::StopProcess,
            Step::AckStop,
            Step::Launch,
            Step::Watch,
            Step::AckStart,
        ],
        TaskCommand::Break => seq![Step::StopProcess, Step::Exit],
    }
}

/// The steps that `cmd` takes.
pub fn plan(cmd: &TaskCommand) -> (r: Vec<Step>)
    ensures
        r@ == plan_of(*cmd),
{
    match cmd {
        TaskCommand::Stop => vec![Step::StopProcess],
        TaskCommand::Restart => vec![Step::StopProcess, Step::Launch, Step::Watch],
        TaskCommand::RestartWith { .. } => vec![
            Step::StopProcess,
            Step::AckStop,
            Step::Launch,
            Step::Watch,
            Step::AckStart,
        ],
        TaskCommand::Break => vec![Step::StopProcess, Step::Exit],
    }
}

/// The supervisor's view of its task.
#[derive(PartialEq, Eq, Structural, Debug, Clone, Copy)]
pub struct TaskState {
    /// A process handle is held, and the process was not seen to end.
    pub running: bool,
    /// How many processes were launched; the latest one's instance number.
    pub generation: u64,
    /// The instance that a watcher currently waits on, holding exclusive access.
    pub watching: Option<u64>,
    /// The supervisor has ended.
    pub done: bool,
}

impl TaskState {
    pub open spec fn wf(self) -> bool {
        &&& (self.watching matches Some(g) ==> self.running && g == self.generation)
        &&& (self.done ==> !self.running && self.watching is None)
    }

    /// A command handler takes exclusive access: any watcher is preempted.
    pub open spec fn acquired(self) -> TaskState {
        TaskState { watching: None, ..self }
    }

    /// Whether taking exclusive access has to preempt a watcher.
    pub open spec fn preempts(self) -> bool {
        self.watching is Some
    }

    /// The process was brought down.
    pub open spec fn stopped(self) -> TaskState {
        TaskState { running: false, ..self }
    }

    /// A launch was attempted; `ok` says whether a process came up.
    pub open spec fn launched(self, ok: bool) -> TaskState {
        if ok {
            TaskState { running: true, generation: (self.generation + 1) as u64, ..self }
        } else {
            TaskState { running: false, ..self }
        }
    }

    /// A watcher takes over the running process, if any.
    pub open spec fn watched(self) -> TaskState {
        if self.running {
            TaskState { watching: Some(self.generation), ..self }
        } else {
            self
        }
    }

    /// Whether a watcher of instance `g` that saw its process end reports it.
    pub open spec fn reports_exit(self, g: u64) -> bool {
        self.watching == Some(g)
    }

    /// The state after a watcher of instance `g` saw its process end.
    pub open spec fn after_exit(self, g: u64) -> TaskState {
        if self.reports_exit(g) {
            TaskState { running: false, watching: None, ..self }
        } else {
            self
        }
    }

    /// The supervisor ended.
    pub open spec fn finished(self) -> TaskState {
        TaskState { done: true, ..self }
    }

    /// A supervisor that has not launched anything yet.
    pub open spec fn initial() -> TaskState {
        TaskState { running: false, generation: 0, watching: None, done: false }
    }

    /// A supervisor that has not launched anything yet.
    pub fn new() -> (r: TaskState)
        ensures
            r == TaskState::initial(),
            r.wf(),
    {
        TaskState { running: false, generation: 0, watching: None, done: false }
    }

    /// Takes exclusive access for a command; returns whether a watcher has to
    /// be told to let go.
    pub fn acquire(&mut self) -> (preempt: bool)
        requires
            old(self).wf(),
        ensures
            preempt == old(self).preempts(),
            *final(self) == old(self).acquired(),
            final(self).wf(),
    {
        let preempt = self.watching.is_some();
        self.watching = None;
        preempt
    }

    /// Records that the process was brought down.
    pub fn mark_stopped(&mut self)
        requires
            old(self).wf(),
            old(self).watching is None,
        ensures
            *final(self) == old(self).stopped(),
            final(self).wf(),
    {
        self.running = false;
    }

    /// Records the outcome of a launch.
    pub fn mark_launched(&mut self, ok: bool)
        requires
            old(self).wf(),
            old(self).watching is None,
            !old(self).done,
            old(self).generation < u64::MAX,
        ensures
            *final(self) == old(self).launched(ok),
            final(self).wf(),
    {
        if ok {
            self.running = true;
            self.generation = self.generation + 1;
        } else {
            self.running = false;
        }
    }

    /// Hands the running process to a watcher; returns the instance to watch,
    /// or `None` when there is nothing to watch.
    pub fn watch(&mut self) -> (r: Option<u64>)
        requires
            old(self).wf(),
            old(self).watching is None,
        ensures
            *final(self) == old(self).watched(),
            r == final(self).watching,
            final(self).wf(),
    {
        if self.running {
            self.watching = Some(self.generation);
        }
        self.watching
    }

    /// A watcher of instance `g` saw its process end; returns whether the
    /// exit is to be reported.
    pub fn exited(&mut self, g: u64) -> (report: bool)
        requires
            old(self).wf(),
        ensures
            report == old(self).reports_exit(g),
            *final(self) == old(self).after_exit(g),
            final(self).wf(),
    {
        let report = match self.watching {
            Some(w) => w == g,
            None => false,
        };
        if report {
            self.running = false;
            self.watching = None;
        }
        report
    }

    /// Ends the supervisor once its process is down.
    pub fn finish(&mut self)
        requires
            old(self).wf(),
            !old(self).running,
            old(self).watching is None,
        ensures
            *final(self) == old(self).finished(),
            final(self).wf(),
    {
        self.done = true;
    }
}

/// The state after carrying out `steps` from `s`, each launch with outcome
/// `ok`.
pub open spec fn run_steps(s: TaskState, steps: Seq<Step>, ok: bool) -> TaskState
    decreases steps.len(),
{
    if steps.len() == 0 {
        s
    } else {
        let t = match steps[0] {
            Step::StopProcess => s.stopped(),
            Step::Launch => s.launched(ok),
            Step::Watch => s.watched(),
            Step::Exit => s.finished(),
            Step::AckStop | Step::AckStart => s,
        };
        run_steps(t, steps.drop_first(), ok)
    }
}

/// The command that a task's supervisor sends itself before it takes
/// commands: `Restart` for a task that starts at launch.
pub open spec fn startup_of(no_start: bool) -> Option<TaskCommand> {
    if no_start {
        None
    } else {
        Some(TaskCommand::Restart)
    }
}

/// The command that the supervisor of `cfg` sends itself at startup.
pub fn startup_command(cfg: &TaskConfig) -> (r: Option<TaskCommand>)
    ensures
        r == startup_of(cfg.no_start),
{
    if cfg.no_start {
        None
    } else {
        Some(TaskCommand::Restart)
    }
}

/// How long a process may take to exit after the interrupt signal, in
/// milliseconds, before it is killed.
pub const GRACE_MS: u64 = 3000;

/// What bringing a process down asks of the runtime next.
#[derive(PartialEq, Eq, Structural, Debug, Clone, Copy)]
pub enum StopAction {
    /// Nothing to do: no process, or it has already exited.
    Nothing,
    /// Send the interrupt signal, then wait up to `GRACE_MS` for the exit.
    Interrupt,
    /// The process is down.
    Done,
    /// Run the forceful kill and wait for it to complete.
    ForceKill,
}

/// The first move of a stop, from a non-blocking probe of the process.
pub open spec fn stop_begin_of(has_process: bool, already_exited: bool) -> StopAction {
    if has_process && !already_exited {
        StopAction::Interrupt
    } else {
        StopAction::Nothing
    }
}

/// The move after the grace period, from whether the process exited in it.
pub open spec fn stop_after_grace_of(exited_in_time: bool) -> StopAction {
    if exited_in_time {
        StopAction::Done
    } else {
        StopAction::ForceKill
    }
}

/// The moves of one stop, given what the probe and the grace period showed.
pub open spec fn stop_moves(has_process: bool, already_exited: bool, exited_in_time: bool) -> Seq<
    StopAction,
> {
    if stop_begin_of(has_process, already_exited) == StopAction::Nothing {
        seq![StopAction::Nothing]
    } else if stop_after_grace_of(exited_in_time) == StopAction::Done {
        seq![StopAction::Interrupt, StopAction::Done]
    } else {
        seq![StopAction::Interrupt, StopAction::ForceKill]
    }
}

/// The first move of a stop, from a non-blocking probe of the process.
pub fn stop_begin(has_process: bool, already_exited: bool) -> (r: StopAction)
    ensures
        r == stop_begin_of(has_process, already_exited),
{
    if has_process && !already_exited {
        StopAction::Interrupt
    } else {
        StopAction::Nothing
    }
}

/// The move after the grace period, from whether the process exited in it.
pub fn stop_after_grace(exited_in_time: bool) -> (r: StopAction)
    ensures
        r == stop_after_grace_of(exited_in_time),
{
    if exited_in_time {
        StopAction::Done
    } else {
        StopAction::ForceKill
    }
}

/// A task that is not running stays down through every transition but a
/// successful launch: a task configured not to start has no process until a
/// restart launches one.
pub proof fn lemma_down_until_launched(s: TaskState, g: u64)
    requires
        s.wf(),
        !s.running,
    ensures
        !TaskState::initial().running,
        !s.acquired().running,
        !s.stopped().running,
        !s.watched().running,
        !s.after_exit(g).running,
        !s.finished().running,
        !s.launched(false).running,
        s.launched(true).running,
        plan_of(TaskCommand::Restart).contains(Step::Launch),
{
    assert(plan_of(TaskCommand::Restart)[1] == Step::Launch);
}

/// Stopping a task whose process is gone or already exited sends no signal
/// and kills nothing, and stopping twice is the same as stopping once.
pub proof fn lemma_stop_idempotent(s: TaskState, has_process: bool, exited_in_time: bool)
    ensures
        stop_moves(has_process, true, exited_in_time) == seq![StopAction::Nothing],
        stop_moves(false, false, exited_in_time) == seq![StopAction::Nothing],
        s.stopped().stopped() == s.stopped(),
{
}

/// A natural exit and a command racing for one watched process instance:
/// exactly one of them wins. Whichever comes first, the other is void: once a
/// command has taken exclusive access, no exit of any instance is reported;
/// once an exit was reported, no command has to preempt for that instance and
/// it is never reported again.
pub proof fn lemma_exit_or_preempt(s: TaskState, g: u64)
    requires
        s.wf(),
    ensures
        s.watching == Some(g) ==> s.preempts() && s.reports_exit(g),
        !s.acquired().reports_exit(g),
        s.acquired().watched().reports_exit(g) ==> g == s.generation && s.running,
        s.reports_exit(g) ==> !s.after_exit(g).preempts() && !s.after_exit(g).reports_exit(g),
{
}

/// A process that ignores the interrupt is killed right after one grace
/// period: a stop interrupts at most once, waits at most `GRACE_MS`, and
/// escalates at most once, and the task is down when it returns.
pub proof fn lemma_escalation(s: TaskState, has_process: bool, already_exited: bool, exited_in_time: bool)
    requires
        s.wf(),
        s.watching is None,
    ensures
        has_process && !already_exited && !exited_in_time ==> stop_moves(
            has_process,
            already_exited,
            exited_in_time,
        ) == seq![StopAction::Interrupt, StopAction::ForceKill],
        stop_moves(has_process, already_exited, exited_in_time).len() <= 2,
        !stop_moves(has_process, already_exited, exited_in_time).drop_first().contains(
            StopAction::Interrupt,
        ),
        !s.stopped().running,
        s.stopped().wf(),
{
    let m = stop_moves(has_process, already_exited, exited_in_time);
    if m.len() == 2 {
        assert(m.drop_first() =~= seq![m[1]]);
    } else {
        assert(m.drop_first() =~= Seq::<StopAction>::empty());
    }
}

/// A `Break` takes every supervisor, whatever its state, to its end with its
/// process down.
pub proof fn lemma_break_ends(s: TaskState, ok: bool)
    requires
        s.wf(),
    ensures
        plan_of(TaskCommand::Break) == seq![Step::StopProcess, Step::Exit],
        run_steps(s.acquired(), plan_of(TaskCommand::Break), ok).done,
        !run_steps(s.acquired(), plan_of(TaskCommand::Break), ok).running,
        run_steps(s.acquired(), plan_of(TaskCommand::Break), ok).wf(),
{
    let p = plan_of(TaskCommand::Break);
    let s0 = s.acquired();
    assert(p.drop_first() =~= seq![Step::Exit]);
    assert(p.drop_first().drop_first() =~= Seq::<Step>::empty());
    assert(run_steps(s0, p, ok) == run_steps(s0.stopped(), p.drop_first(), ok));
    assert(run_steps(s0.stopped(), p.drop_first(), ok) == run_steps(
        s0.stopped().finished(),
        p.drop_first().drop_first(),
        ok,
    ));
}

/// Startup: a task that starts at launch sends itself `Restart`, and handling
/// it with a successful launch leaves its first process running under a
/// watcher; a task that does not start sends nothing and has no process.
pub proof fn lemma_startup(no_start: bool)
    ensures
        no_start ==> startup_of(no_start) is None && !TaskState::initial().running,
        !no_start ==> (startup_of(no_start) matches Some(c) && ({
            let s = run_steps(TaskState::initial().acquired(), plan_of(c), true);
            s.running && s.watching == Some(1u64) && s.wf() && !s.done
        })),
{
    let p = plan_of(TaskCommand::Restart);
    let s0 = TaskState::initial().acquired();
    assert(p.drop_first() =~= seq![Step::Launch, Step::Watch]);
    assert(p.drop_first().drop_first() =~= seq![Step::Watch]);
    assert(p.drop_first().drop_first().drop_first() =~= Seq::<Step>::empty());
    assert(run_steps(s0, p, true) == run_steps(s0.stopped(), p.drop_first(), true));
    assert(run_steps(s0.stopped(), p.drop_first(), true) == run_steps(
        s0.stopped().launched(true),
        p.drop_first().drop_first(),
        true,
    ));
    assert(run_steps(s0.stopped().launched(true), p.drop_first().drop_first(), true) == run_steps(
        s0.stopped().launched(true).watched(),
        p.drop_first().drop_first().drop_first(),
        true,
    ));
}

} // verus!
