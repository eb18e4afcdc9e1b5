//! What holds of the calls that start and stop a client.

use vstd::prelude::*;

use crate::lifecycle::{
    count_starts, count_stops, initialize_action, polling_after, polling_after_calls,
    registered_action, shutdown_action, starts, stops, InitializeAction, LifecycleCall,
    RegisteredAction, ShutdownAction,
};

verus! {

/// A client registers exactly where it does not poll, starts to poll exactly where it could
/// register, and has something to stop exactly where it polls.
pub proof fn law_actions_follow_the_state(polling: bool, succeeded: bool)
    ensures
        initialize_action(polling) == InitializeAction::Register <==> !polling,
        initialize_action(polling) == InitializeAction::Done <==> polling,
        registered_action(succeeded) == RegisteredAction::StartPolling <==> succeeded,
        registered_action(succeeded) == RegisteredAction::Fail <==> !succeeded,
        shutdown_action(polling) == ShutdownAction::StopPolling <==> polling,
        shutdown_action(polling) == ShutdownAction::Done <==> !polling,
{
}

/// After an `initialize` a client polls where it did before or could register; after a `shutdown`
/// it does not.
pub proof fn law_state_follows_the_call(polling: bool, registers: bool)
    ensures
        polling_after(polling, LifecycleCall::Initialize { registers }) == (polling || registers),
        !polling_after(polling, LifecycleCall::Shutdown),
{
}

/// A call starts to poll exactly where there is polling after it and none before, and stops the
/// polling exactly where there is polling before it and none after.
pub proof fn law_starts_and_stops_are_changes(polling: bool, call: LifecycleCall)
    ensures
        starts(polling, call) <==> !polling && polling_after(polling, call),
        stops(polling, call) <==> polling && !polling_after(polling, call),
{
}

/// The state after one call more is that of the call made in the state before it, and the counts
/// grow by what that call does. Without calls there is no polling, and nothing to count.
pub proof fn law_calls_are_taken_in_turn(calls: Seq<LifecycleCall>, call: LifecycleCall)
    ensures
        !polling_after_calls(Seq::empty()),
        count_starts(Seq::empty()) == 0,
        count_stops(Seq::empty()) == 0,
        polling_after_calls(calls.push(call)) == polling_after(polling_after_calls(calls), call),
        count_starts(calls.push(call)) == count_starts(calls) + if starts(
            polling_after_calls(calls),
            call,
        ) {
            1int
        } else {
            0int
        },
        count_stops(calls.push(call)) == count_stops(calls) + if stops(
            polling_after_calls(calls),
            call,
        ) {
            1int
        } else {
            0int
        },
{
    assert(calls.push(call).drop_last() =~= calls);
}

} // verus!
