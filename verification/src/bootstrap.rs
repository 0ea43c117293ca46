//! How the host is configured and brought up.
//!
//! The program that owns the window system asks `host_plan` what to register,
//! starts the run loop, and hands what came of it to `step`, which answers
//! with the host's next state and what the program has to do.

use vstd::prelude::*;

verus! {

/// A capability plugin that the host loads with its default settings.
#[derive(Clone, Copy, Debug, PartialEq, Eq, Structural)]
pub enum Capability {
    /// Running commands of the operating system.
    Shell,
    /// Opening paths and addresses with the system's own programs.
    Opener,
}

/// An operation that the front-end may invoke.
#[derive(Clone, Copy, Debug, PartialEq, Eq, Structural)]
pub enum Operation {
    /// `greet(name) -> text`
    Greet,
}

/// What is registered with the host before its run loop starts.
#[derive(Debug)]
pub struct HostPlan {
    pub capabilities: Vec<Capability>,
    pub operations: Vec<Operation>,
}

/// The two states of the host.
#[derive(Clone, Copy, Debug, PartialEq, Eq, Structural)]
pub enum HostState {
    NotStarted,
    Running,
}

/// What the run loop reports of its own start.
#[derive(Clone, Copy, Debug, PartialEq, Eq, Structural)]
pub enum StartEvent {
    Initialized,
    InitFailed,
}

/// What the program does after an event.
#[derive(Clone, Copy, Debug, PartialEq, Eq, Structural)]
pub enum Directive {
    /// Leave control with the run loop.
    Serve,
    /// End the process at once, abnormally, with `abort_message`.
    Abort,
}

/// The capabilities a host is brought up with, in the order of registration.
pub open spec fn planned_capabilities() -> Seq<Capability> {
    seq![Capability::Shell, Capability::Opener]
}

/// The call table a host is brought up with: greeting, and nothing else.
pub open spec fn planned_operations() -> Seq<Operation> {
    seq![Operation::Greet]
}

/// The state that follows `state` on `event`. Only a successful start leaves
/// `NotStarted`, and nothing leaves `Running`.
pub open spec fn next_state(state: HostState, event: StartEvent) -> HostState {
    match (state, event) {
        (HostState::NotStarted, StartEvent::InitFailed) => HostState::NotStarted,
        _ => HostState::Running,
    }
}

/// What the program is told on `event` in `state`: to abort where the host
/// did not come up, to serve otherwise.
pub open spec fn directive(state: HostState, event: StartEvent) -> Directive {
    match next_state(state, event) {
        HostState::NotStarted => Directive::Abort,
        HostState::Running => Directive::Serve,
    }
}

/// Whether a host in `state` dispatches calls to its operations.
pub open spec fn serving(state: HostState) -> bool {
    state == HostState::Running
}

/// The state after `events`, taken in order from `state`. An abort ends the
/// process, so what stands behind the event that caused it is never seen.
pub open spec fn state_after(state: HostState, events: Seq<StartEvent>) -> HostState
    decreases events.len(),
{
    if events.len() == 0 {
        state
    } else if directive(state, events[0]) == Directive::Abort {
        state
    } else {
        state_after(next_state(state, events[0]), events.drop_first())
    }
}

/// How often the host goes from `NotStarted` to `Running` on `events`, taken
/// in order from `state`.
pub open spec fn starts(state: HostState, events: Seq<StartEvent>) -> nat
    decreases events.len(),
{
    if events.len() == 0 || directive(state, events[0]) == Directive::Abort {
        0
    } else {
        let next = next_state(state, events[0]);
        let here: nat = if state == HostState::NotStarted && next == HostState::Running {
            1
        } else {
            0
        };
        here + starts(next, events.drop_first())
    }
}

/// The registrations of this application: the shell and opener capabilities
/// and a call table that holds the greeting alone.
pub fn host_plan() -> (plan: HostPlan)
    ensures
        plan.capabilities@ == planned_capabilities(),
        plan.operations@ == planned_operations(),
{
    let mut capabilities: Vec<Capability> = Vec::new();
    capabilities.push(Capability::Shell);
    capabilities.push(Capability::Opener);
    let mut operations: Vec<Operation> = Vec::new();
    operations.push(Operation::Greet);
    let plan = HostPlan { capabilities, operations };
    assert(plan.capabilities@ =~= planned_capabilities());
    assert(plan.operations@ =~= planned_operations());
    plan
}

/// One step of the host: the state that follows and what to do now.
pub fn step(state: HostState, event: StartEvent) -> (out: (HostState, Directive))
    ensures
        out.0 == next_state(state, event),
        out.1 == directive(state, event),
{
    match state {
        HostState::Running => (HostState::Running, Directive::Serve),
        HostState::NotStarted => match event {
            StartEvent::Initialized => (HostState::Running, Directive::Serve),
            StartEvent::InitFailed => (HostState::NotStarted, Directive::Abort),
        },
    }
}

/// Whether a host in `state` dispatches calls: only a running one does.
pub fn accepts_calls(state: HostState) -> (yes: bool)
    ensures
        yes == serving(state),
{
    match state {
        HostState::Running => true,
        HostState::NotStarted => false,
    }
}

/// The diagnostic with which the process ends when the host cannot start.
pub fn abort_message() -> (msg: &'static str)
    ensures
        msg@ == "error while running tauri application"@,
{
    "error while running tauri application"
}

/// A running host stays running whatever is reported, is never told to abort,
/// and does not start a second time.
pub proof fn lemma_running_is_terminal(events: Seq<StartEvent>)
    ensures
        state_after(HostState::Running, events) == HostState::Running,
        starts(HostState::Running, events) == 0,
        forall|i: int|
            0 <= i < events.len() ==> directive(HostState::Running, #[trigger] events[i])
                == Directive::Serve,
    decreases events.len(),
{
    if events.len() > 0 {
        lemma_running_is_terminal(events.drop_first());
    }
}

/// Where the run loop comes up, the host goes from `NotStarted` to `Running`
/// exactly once, is told to serve, and stays running whatever follows.
pub proof fn lemma_successful_start(rest: Seq<StartEvent>)
    ensures
        directive(HostState::NotStarted, StartEvent::Initialized) == Directive::Serve,
        state_after(HostState::NotStarted, seq![StartEvent::Initialized] + rest)
            == HostState::Running,
        starts(HostState::NotStarted, seq![StartEvent::Initialized] + rest) == 1,
{
    let events = seq![StartEvent::Initialized] + rest;
    assert(events[0] == StartEvent::Initialized);
    assert(events.drop_first() =~= rest);
    lemma_running_is_terminal(rest);
}

/// Where the run loop cannot come up, the program is told to abort, and the
/// host never starts and never dispatches a call, whatever stands behind the
/// failure.
pub proof fn lemma_failed_start(rest: Seq<StartEvent>)
    ensures
        directive(HostState::NotStarted, StartEvent::InitFailed) == Directive::Abort,
        state_after(HostState::NotStarted, seq![StartEvent::InitFailed] + rest)
            == HostState::NotStarted,
        starts(HostState::NotStarted, seq![StartEvent::InitFailed] + rest) == 0,
        !serving(state_after(HostState::NotStarted, seq![StartEvent::InitFailed] + rest)),
{
    let events = seq![StartEvent::InitFailed] + rest;
    assert(events[0] == StartEvent::InitFailed);
}

/// From any state and on any events the host starts at most once, and it
/// dispatches calls afterwards exactly if it was running or has started.
pub proof fn lemma_at_most_one_start(state: HostState, events: Seq<StartEvent>)
    ensures
        starts(state, events) <= 1,
        serving(state_after(state, events)) <==> serving(state) || starts(state, events) == 1,
    decreases events.len(),
{
    if events.len() > 0 && directive(state, events[0]) != Directive::Abort {
        lemma_running_is_terminal(events.drop_first());
    }
}

} // verus!
