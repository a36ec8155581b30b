//! Instances: the state machine that drives a device and the reaction to the
//! events of the tasks it monitors.
//!
//! The caller runs the loop: it waits for state changes, performs the action
//! chosen here (mounting the device, cancelling its tasks, waiting for a
//! reboot condition) and feeds the outcome back.

pub mod queue;
pub mod server;
pub mod topic;

use vstd::prelude::*;

verus! {

/// States of the main instance FSM.
#[derive(Debug, Clone, Copy, PartialEq, Eq)]
pub enum State {
    Booting,
    Connecting,
    Initializating,
    Running,
    Warning,
    Error,
    Cleaning,
    Stopping,
    Undefined,
}

impl State {
    /// Text of the state.
    pub open spec fn text(self) -> Seq<char> {
        match self {
            State::Booting => "Booting"@,
            State::Connecting => "Connecting"@,
            State::Initializating => "Initializating"@,
            State::Running => "Running"@,
            State::Warning => "Warning"@,
            State::Error => "Error"@,
            State::Cleaning => "Cleaning"@,
            State::Stopping => "Stopping"@,
            State::Undefined => "Undefined"@,
        }
    }

    /// Text of the state, as it is displayed.
    pub fn as_str(&self) -> (r: &'static str)
        ensures
            r@ == self.text(),
    {
        match self {
            State::Booting => "Booting",
            State::Connecting => "Connecting",
            State::Initializating => "Initializating",
            State::Running => "Running",
            State::Warning => "Warning",
            State::Error => "Error",
            State::Cleaning => "Cleaning",
            State::Stopping => "Stopping",
            State::Undefined => "Undefined",
        }
    }
}

impl Default for State {
    /// The default state is `Undefined`.
    fn default() -> (r: Self)
        ensures
            r == State::Undefined,
    {
        State::Undefined
    }
}

/// What the FSM loop does when it is woken up in a given state.
#[derive(Debug, Clone, Copy, PartialEq, Eq)]
pub enum FsmAction {
    /// Nothing to do, wait for the next state change.
    Idle,
    /// Move to the given state.
    MoveTo(State),
    /// Mount the device, then move to the state given by `state_after_mount`.
    Mount,
    /// Cancel the monitored tasks, wait for the reboot event of the device,
    /// then move to the given state.
    Reboot(State),
}

/// The action of the FSM in each state.
pub open spec fn spec_fsm_action(state: State) -> FsmAction {
    match state {
        State::Booting => FsmAction::MoveTo(State::Initializating),
        State::Initializating => FsmAction::Mount,
        State::Error => FsmAction::Reboot(State::Initializating),
        _ => FsmAction::Idle,
    }
}

/// State in which an instance starts its FSM.
pub fn initial_state() -> (r: State)
    ensures
        r == State::Booting,
{
    State::Booting
}

/// The state machine acts only in `Booting`, `Initializating` and `Error`;
/// in every other state (`Connecting`, `Running`, `Warning`, `Cleaning`,
/// `Stopping`, `Undefined`) it waits. Only `Error` reboots the device and
/// only `Initializating` mounts it.
pub proof fn lemma_fsm_idle_outside_boot_mount_error(state: State)
    ensures
        spec_fsm_action(state) == FsmAction::Idle <==> !(state == State::Booting || state
            == State::Initializating || state == State::Error),
        spec_fsm_action(state) is Reboot <==> state == State::Error,
        spec_fsm_action(state) is Mount <==> state == State::Initializating,
        spec_fsm_action(state) is MoveTo <==> state == State::Booting,
{
}

/// Chooses the action of the FSM for the current state.
pub fn fsm_action(state: State) -> (r: FsmAction)
    ensures
        r == spec_fsm_action(state),
        (r == FsmAction::Idle) <==> !(state == State::Booting || state == State::Initializating
            || state == State::Error),
{
    match state {
        State::Booting => FsmAction::MoveTo(State::Initializating),
        State::Connecting => FsmAction::Idle,
        State::Initializating => FsmAction::Mount,
        State::Running => FsmAction::Idle,
        State::Error => FsmAction::Reboot(State::Initializating),
        State::Warning => FsmAction::Idle,
        State::Cleaning => FsmAction::Idle,
        State::Stopping => FsmAction::Idle,
        State::Undefined => FsmAction::Idle,
    }
}

/// State reached once the mount of the device has been tried.
pub fn state_after_mount(mount_succeeded: bool) -> (r: State)
    ensures
        mount_succeeded ==> r == State::Running,
        !mount_succeeded ==> r == State::Error,
{
    if mount_succeeded {
        State::Running
    } else {
        State::Error
    }
}

/// The state an action leads to, given the outcome of the mount when it
/// mounts. `None` when the action does not change the state.
pub open spec fn spec_next_state(action: FsmAction, mount_succeeded: bool) -> Option<State> {
    match action {
        FsmAction::Idle => None,
        FsmAction::MoveTo(s) => Some(s),
        FsmAction::Mount => Some(if mount_succeeded { State::Running } else { State::Error }),
        FsmAction::Reboot(s) => Some(s),
    }
}

/// Every state the FSM leaves leads, through mounting, to `Running` when the
/// mount succeeds and to `Error` when it fails; and `Error` always comes back
/// to a new mount attempt.
pub proof fn lemma_fsm_reaches_mount(state: State, mount_succeeded: bool)
    ensures
        spec_fsm_action(state) != FsmAction::Idle ==> {
            let after = spec_next_state(spec_fsm_action(state), mount_succeeded).unwrap();
            ||| after == State::Initializating
            ||| (state == State::Initializating && after == (if mount_succeeded {
                State::Running
            } else {
                State::Error
            }))
        },
        spec_fsm_action(State::Error) == FsmAction::Reboot(State::Initializating),
        spec_fsm_action(State::Running) == FsmAction::Idle,
{
}

/// Information carried by a task event.
#[derive(Debug, Clone)]
pub struct TaskEventBody {
    pub task_name: String,
    pub error_message: Option<String>,
}

/// Events reported by the task monitor of an instance.
#[derive(Debug, Clone)]
pub enum TaskEvent {
    TaskMonitorError(String),
    TaskStopWithPain(TaskEventBody),
    TaskPanicOMG(TaskEventBody),
    TaskCreated(TaskEventBody),
    TaskStopProperly(TaskEventBody),
    NoMoreTask,
}

/// How the instance reacts to a task event.
#[derive(Debug, Clone, Copy, PartialEq, Eq)]
pub enum TaskEventReaction {
    /// Only report the event.
    Report,
    /// Put the instance in `Error`: set the state, send the state
    /// notification and wake the FSM up.
    EnterError,
}

/// A task that stopped with an error or panicked puts the instance in error;
/// other events are only reported.
pub open spec fn spec_task_event_reaction(event: TaskEvent) -> TaskEventReaction {
    match event {
        TaskEvent::TaskStopWithPain(_) | TaskEvent::TaskPanicOMG(_) => TaskEventReaction::EnterError,
        _ => TaskEventReaction::Report,
    }
}

/// Only a task that stopped with an error or panicked puts the instance in
/// error: a task created or stopped properly, an error of the monitor itself
/// and the end of all tasks are only reported, and leave the state as it is.
pub proof fn lemma_only_failures_enter_error(event: TaskEvent)
    ensures
        spec_task_event_reaction(event) == TaskEventReaction::EnterError <==> (event is TaskStopWithPain
            || event is TaskPanicOMG),
        event is TaskStopProperly ==> spec_task_event_reaction(event) == TaskEventReaction::Report,
        event is TaskCreated ==> spec_task_event_reaction(event) == TaskEventReaction::Report,
        event is TaskMonitorError ==> spec_task_event_reaction(event) == TaskEventReaction::Report,
        event is NoMoreTask ==> spec_task_event_reaction(event) == TaskEventReaction::Report,
{
}

/// Chooses the reaction to a task event.
pub fn task_event_reaction(event: &TaskEvent) -> (r: TaskEventReaction)
    ensures
        r == spec_task_event_reaction(*event),
        (r == TaskEventReaction::EnterError) <==> (event is TaskStopWithPain || event is TaskPanicOMG),
{
    match event {
        TaskEvent::TaskStopWithPain(_) => TaskEventReaction::EnterError,
        TaskEvent::TaskPanicOMG(_) => TaskEventReaction::EnterError,
        _ => TaskEventReaction::Report,
    }
}

/// Kind of failure reported for a failing task: "Error" for a task that
/// stopped with an error, "Panic" otherwise.
pub fn task_failure_kind(event: &TaskEvent) -> (r: &'static str)
    ensures
        event is TaskStopWithPain ==> r@ == "Error"@,
        !(event is TaskStopWithPain) ==> r@ == "Panic"@,
{
    match event {
        TaskEvent::TaskStopWithPain(_) => "Error",
        _ => "Panic",
    }
}

/// State of the instance after a task event.
pub fn state_after_task_event(current: State, event: &TaskEvent) -> (r: State)
    ensures
        spec_task_event_reaction(*event) == TaskEventReaction::EnterError ==> r == State::Error,
        spec_task_event_reaction(*event) == TaskEventReaction::Report ==> r == current,
        (event is TaskStopWithPain || event is TaskPanicOMG) ==> r == State::Error,
        !(event is TaskStopWithPain || event is TaskPanicOMG) ==> r == current,
{
    match task_event_reaction(event) {
        TaskEventReaction::EnterError => State::Error,
        TaskEventReaction::Report => current,
    }
}

/// Outcome of a sub task of an instance, as its monitor joins it.
#[derive(Debug, Clone)]
pub enum SubtaskOutcome {
    /// The task returned `Ok`.
    Completed,
    /// The task returned an error, rendered as text.
    Failed(String),
    /// The task could not be joined (cancelled or panicked).
    JoinFailed(String),
}

/// What the monitor does after joining a sub task.
#[derive(Debug, Clone)]
pub enum SubtaskReaction {
    /// Go on joining the other tasks.
    Continue,
    /// Log the message, abort every other sub task and put the instance in
    /// error.
    AbortAllAndFail(String),
}

/// A sub task that returned an error brings the whole instance down; the
/// other outcomes are only reported.
pub fn subtask_reaction(outcome: SubtaskOutcome) -> (r: SubtaskReaction)
    ensures
        match outcome {
            SubtaskOutcome::Failed(e) => r matches SubtaskReaction::AbortAllAndFail(m) && m@
                == "Instance sub task crash: "@ + e@,
            _ => r is Continue,
        },
{
    match outcome {
        SubtaskOutcome::Failed(e) => {
            let mut m = "Instance sub task crash: ".to_owned();
            m.append(e.as_str());
            SubtaskReaction::AbortAllAndFail(m)
        },
        _ => SubtaskReaction::Continue,
    }
}

} // verus!
