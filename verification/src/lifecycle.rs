//! When a client registers, polls and stops.

use vstd::prelude::*;

verus! {

/// What a caller of `initialize` has to do next.
#[derive(Clone, Copy, Debug, PartialEq, Eq, Structural)]
pub enum InitializeAction {
    /// Nothing: updates are being polled already.
    Done,
    /// Register with the server, and report what came of it.
    Register,
}

/// What follows an attempt to register.
#[derive(Clone, Copy, Debug, PartialEq, Eq, Structural)]
pub enum RegisteredAction {
    /// Start to poll for updates.
    StartPolling,
    /// Hand the error of the attempt to the caller.
    Fail,
}

/// What a caller of `shutdown` has to do next.
#[derive(Clone, Copy, Debug, PartialEq, Eq, Structural)]
pub enum ShutdownAction {
    /// Nothing: no updates are being polled.
    Done,
    /// Stop the polling and drop its task.
    StopPolling,
}

/// What a call of `initialize` asks for.
pub open spec fn initialize_action(polling: bool) -> InitializeAction {
    if polling {
        InitializeAction::Done
    } else {
        InitializeAction::Register
    }
}

/// What follows an attempt to register.
pub open spec fn registered_action(succeeded: bool) -> RegisteredAction {
    if succeeded {
        RegisteredAction::StartPolling
    } else {
        RegisteredAction::Fail
    }
}

/// What a call of `shutdown` asks for.
pub open spec fn shutdown_action(polling: bool) -> ShutdownAction {
    if polling {
        ShutdownAction::StopPolling
    } else {
        ShutdownAction::Done
    }
}

/// A call that was carried out to its end. Where `initialize` had to register, `registers` says
/// whether that succeeded.
pub enum LifecycleCall {
    Initialize { registers: bool },
    Shutdown,
}

/// Whether updates are polled after a call.
pub open spec fn polling_after(polling: bool, call: LifecycleCall) -> bool {
    match call {
        LifecycleCall::Initialize { registers } => match initialize_action(polling) {
            InitializeAction::Done => polling,
            InitializeAction::Register => registered_action(registers)
                == RegisteredAction::StartPolling,
        },
        LifecycleCall::Shutdown => false,
    }
}

/// The call starts to poll.
pub open spec fn starts(polling: bool, call: LifecycleCall) -> bool {
    match call {
        LifecycleCall::Initialize { registers } => initialize_action(polling)
            == InitializeAction::Register && registered_action(registers)
            == RegisteredAction::StartPolling,
        LifecycleCall::Shutdown => false,
    }
}

/// The call stops the polling.
pub open spec fn stops(polling: bool, call: LifecycleCall) -> bool {
    call is Shutdown && shutdown_action(polling) == ShutdownAction::StopPolling
}

/// Whether a client that did not poll at first does so after the calls.
pub open spec fn polling_after_calls(calls: Seq<LifecycleCall>) -> bool
    decreases calls.len(),
{
    if calls.len() == 0 {
        false
    } else {
        polling_after(polling_after_calls(calls.drop_last()), calls.last())
    }
}

/// How many of the calls start to poll.
pub open spec fn count_starts(calls: Seq<LifecycleCall>) -> nat
    decreases calls.len(),
{
    if calls.len() == 0 {
        0
    } else if starts(polling_after_calls(calls.drop_last()), calls.last()) {
        count_starts(calls.drop_last()) + 1
    } else {
        count_starts(calls.drop_last())
    }
}

/// How many of the calls stop the polling.
pub open spec fn count_stops(calls: Seq<LifecycleCall>) -> nat
    decreases calls.len(),
{
    if calls.len() == 0 {
        0
    } else if stops(polling_after_calls(calls.drop_last()), calls.last()) {
        count_stops(calls.drop_last()) + 1
    } else {
        count_stops(calls.drop_last())
    }
}

/// Whether a client polls for updates.
#[derive(Debug)]
pub struct PollLifecycle {
    polling: bool,
}

impl PollLifecycle {
    /// Updates are being polled.
    pub closed spec fn is_polling(&self) -> bool {
        self.polling
    }

    /// A client that does not poll yet.
    pub fn new() -> (lifecycle: Self)
        ensures
            !lifecycle.is_polling(),
    {
        PollLifecycle { polling: false }
    }

    /// Whether updates are being polled.
    pub fn polling(&self) -> (polling: bool)
        ensures
            polling == self.is_polling(),
    {
        self.polling
    }

    /// Begins to initialize the client. A client that polls already is left alone.
    pub fn initialize(&self) -> (action: InitializeAction)
        ensures
            action == initialize_action(self.is_polling()),
    {
        if self.polling {
            InitializeAction::Done
        } else {
            InitializeAction::Register
        }
    }

    /// Goes on after an attempt to register: only a client that is registered polls.
    pub fn registered(&mut self, succeeded: bool) -> (action: RegisteredAction)
        requires
            !old(self).is_polling(),
        ensures
            final(self).is_polling() == polling_after(
                old(self).is_polling(),
                LifecycleCall::Initialize { registers: succeeded },
            ),
            action == registered_action(succeeded),
    {
        if succeeded {
            self.polling = true;
            RegisteredAction::StartPolling
        } else {
            RegisteredAction::Fail
        }
    }

    /// Shuts the client down. There is something to stop only where it polls.
    pub fn shutdown(&mut self) -> (action: ShutdownAction)
        ensures
            final(self).is_polling() == polling_after(
                old(self).is_polling(),
                LifecycleCall::Shutdown,
            ),
            action == shutdown_action(old(self).is_polling()),
    {
        if self.polling {
            self.polling = false;
            ShutdownAction::StopPolling
        } else {
            ShutdownAction::Done
        }
    }
}

} // verus!
