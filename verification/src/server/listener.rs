//! What the listener loop decides: the address to bind, and what follows
//! each event of binding and accepting.

use crate::text::decimal::{decimal, decimal_string};
use vstd::prelude::*;
use vstd::string::StringExecFns;

verus! {

/// Where the listener stands.
#[derive(Clone, Copy, Debug, PartialEq, Eq, Structural)]
pub enum ListenerState {
    /// Nothing is bound yet.
    Starting,
    /// The address is bound and connections are accepted.
    Accepting,
    /// Binding failed; nothing will be accepted.
    Stopped,
}

/// What the socket layer reports to the listener.
#[derive(Clone, Copy, Debug, PartialEq, Eq, Structural)]
pub enum ListenerEvent {
    /// The address was bound.
    Bound,
    /// The address could not be bound.
    BindFailed,
    /// A connection was accepted.
    Accepted,
    /// Accepting a connection failed.
    AcceptFailed,
}

/// What the listener does next.
#[derive(Clone, Copy, Debug, PartialEq, Eq, Structural)]
pub enum ListenerAction {
    /// Say that the server has started, then accept.
    Announce,
    /// Hand the connection to a handler of its own, then accept again.
    Serve,
    /// Report the failed accept, then accept again.
    Report,
    /// Report the failed bind and end.
    Halt,
    /// The event has no meaning in this state: do nothing.
    Ignore,
}

/// The state after an event and the action that the event calls for.
pub open spec fn step_of(state: ListenerState, event: ListenerEvent) -> (
    ListenerState,
    ListenerAction,
) {
    match (state, event) {
        (ListenerState::Starting, ListenerEvent::Bound) => (
            ListenerState::Accepting,
            ListenerAction::Announce,
        ),
        (ListenerState::Starting, ListenerEvent::BindFailed) => (
            ListenerState::Stopped,
            ListenerAction::Halt,
        ),
        (ListenerState::Accepting, ListenerEvent::Accepted) => (
            ListenerState::Accepting,
            ListenerAction::Serve,
        ),
        (ListenerState::Accepting, ListenerEvent::AcceptFailed) => (
            ListenerState::Accepting,
            ListenerAction::Report,
        ),
        _ => (state, ListenerAction::Ignore),
    }
}

/// The state after a run of events.
pub open spec fn state_after(state: ListenerState, events: Seq<ListenerEvent>) -> ListenerState
    decreases events.len(),
{
    if events.len() == 0 {
        state
    } else {
        step_of(state_after(state, events.drop_last()), events.last()).0
    }
}

/// Once the address is bound the listener accepts forever: no run of events
/// takes it out of `Accepting`, and every accepted connection is served.
pub proof fn lemma_accepting_is_forever(events: Seq<ListenerEvent>)
    ensures
        state_after(ListenerState::Accepting, events) == ListenerState::Accepting,
        step_of(state_after(ListenerState::Accepting, events), ListenerEvent::Accepted).1
            == ListenerAction::Serve,
    decreases events.len(),
{
    if events.len() > 0 {
        lemma_accepting_is_forever(events.drop_last());
    }
}

/// After a failed bind nothing is ever served.
pub proof fn lemma_stopped_is_final(events: Seq<ListenerEvent>, event: ListenerEvent)
    ensures
        state_after(ListenerState::Stopped, events) == ListenerState::Stopped,
        step_of(state_after(ListenerState::Stopped, events), event).1 == ListenerAction::Ignore,
    decreases events.len(),
{
    if events.len() > 0 {
        lemma_stopped_is_final(events.drop_last(), events.last());
    }
}

/// The state after `event` and the action that it calls for.
pub fn step(state: ListenerState, event: ListenerEvent) -> (r: (ListenerState, ListenerAction))
    ensures
        r == step_of(state, event),
{
    match state {
        ListenerState::Starting => match event {
            ListenerEvent::Bound => (ListenerState::Accepting, ListenerAction::Announce),
            ListenerEvent::BindFailed => (ListenerState::Stopped, ListenerAction::Halt),
            _ => (state, ListenerAction::Ignore),
        },
        ListenerState::Accepting => match event {
            ListenerEvent::Accepted => (ListenerState::Accepting, ListenerAction::Serve),
            ListenerEvent::AcceptFailed => (ListenerState::Accepting, ListenerAction::Report),
            _ => (state, ListenerAction::Ignore),
        },
        ListenerState::Stopped => (state, ListenerAction::Ignore),
    }
}

/// The address that the listener binds: `address`, a colon, and `port` in
/// decimal.
pub fn bind_address(address: &str, port: u16) -> (r: String)
    ensures
        r@ == address@ + ":"@ + decimal(port as nat),
{
    let mut r = String::from_str(address);
    r.append(":");
    r.append(decimal_string(port as usize).as_str());
    r
}

} // verus!
