//! The command driver: the orchestration state machine behind every
//! subcommand.
//!
//! Each invocation plans one remote command and, for the waiting variant of
//! `edit`, a subscription to the opened buffer followed by a blocking wait
//! for its detach event. The decisions live here as a verified step
//! function from state and input to next state and action; the unverified
//! shell performs each action (the RPC call, the blocking receive) and
//! feeds the outcome back in as the next input.

use vstd::prelude::*;

use crate::bridge::EventBridge;
use crate::commands::{
    edit_command, edit_command_text, tchdir_command, tchdir_command_text, term_rename_command,
    term_rename_command_text,
};
use crate::router::BufferEvent;

verus! {

/// Why a driver run could not even start.
#[derive(Clone, Copy, Debug, PartialEq, Eq, Structural)]
pub enum DriverError {
    /// The environment names no control-socket address for the editor.
    MissingAddress,
}

/// One parsed invocation of the client.
pub enum Request {
    /// Open `file`; with `wait`, block until the opened buffer is closed.
    Edit { file: String, wait: bool },
    /// Change the editor's working directory; `None` asks for the current
    /// directory (an empty argument on the wire).
    Cd { directory: Option<String> },
    /// Rename the current terminal buffer.
    Rename { name: String },
}

/// What a request asks the driver to do: one command, and whether to wait
/// for the detach event afterwards.
pub struct CommandPlan {
    pub command: String,
    pub wait: bool,
}

/// The exact command text a request sends.
pub open spec fn planned_command(req: Request) -> Seq<char> {
    match req {
        Request::Edit { file, .. } => edit_command_text(file@),
        Request::Cd { directory } => tchdir_command_text(
            match directory {
                Some(d) => d@,
                None => Seq::<char>::empty(),
            },
        ),
        Request::Rename { name } => term_rename_command_text(name@),
    }
}

/// Whether a request blocks until the detach event.
pub open spec fn request_waits(req: Request) -> bool {
    req matches Request::Edit { wait: true, .. }
}

/// Turn a parsed invocation into its plan.
pub fn plan_request(req: &Request) -> (plan: CommandPlan)
    ensures
        plan.command@ == planned_command(*req),
        plan.wait == request_waits(*req),
{
    match req {
        Request::Edit { file, wait } => CommandPlan {
            command: edit_command(file.as_str()),
            wait: *wait,
        },
        Request::Cd { directory } => {
            let argument: &str = match directory {
                Some(d) => d.as_str(),
                None => "",
            };
            proof {
                reveal_strlit("");
                assert(""@ =~= Seq::<char>::empty());
            }
            CommandPlan { command: tchdir_command(argument), wait: false }
        },
        Request::Rename { name } => CommandPlan {
            command: term_rename_command(name.as_str()),
            wait: false,
        },
    }
}

/// Where one driver run stands.
#[derive(Clone, Copy, Debug, PartialEq, Eq, Structural)]
pub enum DriverState {
    /// Nothing issued yet.
    Idle,
    /// The command was issued; its synchronous response is outstanding.
    CommandSent,
    /// The buffer subscription was issued; its response is outstanding.
    ResourceAttached,
    /// Blocked until the terminal event arrives.
    WaitingForEvent,
    /// Finished successfully.
    Done,
    /// A synchronous call failed; the run was abandoned.
    Failed,
}

/// What the shell reports back into the machine.
#[derive(Clone, Copy, Debug, PartialEq, Eq, Structural)]
pub enum DriverInput {
    /// Begin the run.
    Start,
    /// The synchronous command returned successfully.
    CommandOk,
    /// The synchronous command failed.
    CommandFailed,
    /// The buffer subscription returned successfully.
    AttachOk,
    /// The buffer subscription failed.
    AttachFailed,
    /// An event arrived over the bridge.
    Event(BufferEvent),
}

/// What the shell must do next.
#[derive(Clone, Copy, Debug, PartialEq, Eq, Structural)]
pub enum DriverAction {
    /// Issue the planned command synchronously.
    SendCommand,
    /// Subscribe to the buffer the command created.
    AttachResource,
    /// Block on the bridge for the next event.
    AwaitEvent,
    /// Return to the caller: the run is complete.
    Finish,
    /// Report the failure and stop: every call-site error is fatal.
    Abort,
    /// The input fits no transition from this state; nothing to do.
    Ignore,
}

/// The event that ends a wait: the subscribed buffer went away.
pub open spec fn is_terminal_event(event: BufferEvent) -> bool {
    event is Delete
}

/// The whole transition relation of the driver, as a function: from the
/// current state, whether this run waits, and the input, to the next state
/// and the action the shell must perform.
pub open spec fn next_step(state: DriverState, wait: bool, input: DriverInput) -> (
    DriverState,
    DriverAction,
) {
    match (state, input) {
        (DriverState::Idle, DriverInput::Start) => (
            DriverState::CommandSent,
            DriverAction::SendCommand,
        ),
        (DriverState::CommandSent, DriverInput::CommandOk) => if wait {
            (DriverState::ResourceAttached, DriverAction::AttachResource)
        } else {
            (DriverState::Done, DriverAction::Finish)
        },
        (DriverState::CommandSent, DriverInput::CommandFailed) => (
            DriverState::Failed,
            DriverAction::Abort,
        ),
        (DriverState::ResourceAttached, DriverInput::AttachOk) => (
            DriverState::WaitingForEvent,
            DriverAction::AwaitEvent,
        ),
        (DriverState::ResourceAttached, DriverInput::AttachFailed) => (
            DriverState::Failed,
            DriverAction::Abort,
        ),
        (DriverState::WaitingForEvent, DriverInput::Event(event)) => if is_terminal_event(event) {
            (DriverState::Done, DriverAction::Finish)
        } else {
            (DriverState::WaitingForEvent, DriverAction::AwaitEvent)
        },
        _ => (state, DriverAction::Ignore),
    }
}

/// One end-to-end interaction with the editor, stepped by the shell.
pub struct CommandDriver {
    pub plan: CommandPlan,
    pub state: DriverState,
}

impl CommandDriver {
    /// A driver ready to start on the given request.
    pub fn new(req: &Request) -> (driver: CommandDriver)
        ensures
            driver.state is Idle,
            driver.plan.command@ == planned_command(*req),
            driver.plan.wait == request_waits(*req),
    {
        CommandDriver { plan: plan_request(req), state: DriverState::Idle }
    }

    /// Advance the machine by one input; returns the action to perform.
    pub fn step(&mut self, input: DriverInput) -> (action: DriverAction)
        ensures
            (final(self).state, action) == next_step(
                old(self).state,
                old(self).plan.wait,
                input,
            ),
            final(self).plan == old(self).plan,
    {
        let wait = self.plan.wait;
        let (state, action) = match (self.state, input) {
            (DriverState::Idle, DriverInput::Start) => (
                DriverState::CommandSent,
                DriverAction::SendCommand,
            ),
            (DriverState::CommandSent, DriverInput::CommandOk) => if wait {
                (DriverState::ResourceAttached, DriverAction::AttachResource)
            } else {
                (DriverState::Done, DriverAction::Finish)
            },
            (DriverState::CommandSent, DriverInput::CommandFailed) => (
                DriverState::Failed,
                DriverAction::Abort,
            ),
            (DriverState::ResourceAttached, DriverInput::AttachOk) => (
                DriverState::WaitingForEvent,
                DriverAction::AwaitEvent,
            ),
            (DriverState::ResourceAttached, DriverInput::AttachFailed) => (
                DriverState::Failed,
                DriverAction::Abort,
            ),
            (DriverState::WaitingForEvent, DriverInput::Event(event)) => match event {
                BufferEvent::Delete => (DriverState::Done, DriverAction::Finish),
            },
            (s, _) => (s, DriverAction::Ignore),
        };
        self.state = state;
        action
    }
}

/// The driver may not open a transport without an address: a present
/// address is returned as-is, an absent one is the `MissingAddress` error
/// before any connection is attempted.
pub fn resolve_address(address: Option<String>) -> (resolved: Result<String, DriverError>)
    ensures
        address matches Some(a) ==> resolved == Ok::<String, DriverError>(a),
        address is None ==> resolved == Err::<String, DriverError>(DriverError::MissingAddress),
{
    match address {
        Some(a) => Ok(a),
        None => Err(DriverError::MissingAddress),
    }
}

/// Decide whether a received event ends the wait.
pub fn event_ends_wait(event: &BufferEvent) -> (ends: bool)
    ensures
        ends == is_terminal_event(*event),
{
    match event {
        BufferEvent::Delete => true,
    }
}

/// Whether a queue of pending events would unblock the wait: it does
/// exactly when some pending event is terminal.
pub open spec fn wait_would_end(pending: Seq<BufferEvent>) -> bool
    decreases pending.len(),
{
    pending.len() > 0 && (is_terminal_event(pending[0]) || wait_would_end(pending.skip(1)))
}

/// What is left in the queue once the wait has consumed everything up to
/// and including the first terminal event.
pub open spec fn after_wait(pending: Seq<BufferEvent>) -> Seq<BufferEvent>
    decreases pending.len(),
{
    if pending.len() == 0 {
        pending
    } else if is_terminal_event(pending[0]) {
        pending.skip(1)
    } else {
        after_wait(pending.skip(1))
    }
}

/// The receiver loop of the waiting path: take events off the bridge, in
/// order, until the terminal one arrives. Returns `true` exactly when a
/// terminal event was pending; every non-terminal event before it is
/// treated as informational and consumed, and nothing after it is touched.
pub fn drain_until_delete(bridge: &mut EventBridge<BufferEvent>) -> (ended: bool)
    ensures
        ended == wait_would_end(old(bridge)@),
        ended ==> final(bridge)@ == after_wait(old(bridge)@),
        !ended ==> final(bridge)@ == Seq::<BufferEvent>::empty(),
{
    loop
        invariant
            wait_would_end(bridge@) == wait_would_end(old(bridge)@),
            wait_would_end(old(bridge)@) ==> after_wait(bridge@) == after_wait(old(bridge)@),
        decreases bridge@.len(),
    {
        match bridge.try_receive() {
            None => {
                return false;
            },
            Some(event) => {
                if event_ends_wait(&event) {
                    return true;
                }
            },
        }
    }
}

/// The non-waiting path is done the moment the synchronous command is
/// acknowledged: whatever notifications may arrive concurrently, the very
/// next step after the command's response is `Finish`, and the driver
/// touches neither the bridge nor the subscription machinery.
pub proof fn lemma_non_waiting_finishes_on_ack(req: Request)
    requires
        !request_waits(req),
    ensures
        next_step(DriverState::CommandSent, request_waits(req), DriverInput::CommandOk) == (
            DriverState::Done,
            DriverAction::Finish,
        ),
{
}

/// The waiting path stays blocked across non-terminal events and unblocks
/// on the terminal one: from the waiting state, a non-terminal event leads
/// back to waiting and the terminal event, alone, finishes the run.
pub proof fn lemma_wait_unblocks_only_on_terminal(wait: bool, event: BufferEvent)
    ensures
        is_terminal_event(event) ==> next_step(
            DriverState::WaitingForEvent,
            wait,
            DriverInput::Event(event),
        ) == (DriverState::Done, DriverAction::Finish),
        !is_terminal_event(event) ==> next_step(
            DriverState::WaitingForEvent,
            wait,
            DriverInput::Event(event),
        ) == (DriverState::WaitingForEvent, DriverAction::AwaitEvent),
{
}

} // verus!

