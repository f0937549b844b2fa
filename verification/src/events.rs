//! The in-process event bus's decisions: how large a channel is, and what a
//! listener does with each thing its receiver hands it.
use vstd::prelude::*;

verus! {

/// A broadcast channel needs room for at least one event.
pub fn channel_capacity(requested: usize) -> (c: usize)
    ensures
        c == if requested >= 1 { requested } else { 1 },
{
    if requested >= 1 {
        requested
    } else {
        1
    }
}

/// What a listener's receiver produced.
#[derive(Clone, Copy, Debug, PartialEq, Eq, Structural)]
pub enum Received {
    /// An event to hand to the handler.
    Event,
    /// The listener fell behind and this many events were overwritten.
    Lagged(u64),
    /// Every sender is gone.
    Closed,
}

#[derive(Clone, Copy, Debug, PartialEq, Eq, Structural)]
pub enum ListenerStep {
    /// Run the handler on the event (in its own task, so a panic ends the
    /// handler and not the listener), then keep listening.
    Dispatch,
    /// Report the lost events and keep listening: a subscription that quits
    /// on lag stays dead.
    ReportLagAndContinue { missed: u64 },
    /// The bus is gone: stop.
    Stop,
}

/// A listener stops only when the bus goes away.
pub fn listener_step(received: Received) -> (step: ListenerStep)
    ensures
        step is Stop <==> received is Closed,
        received is Event ==> step is Dispatch,
        received matches Received::Lagged(n) ==> step == (ListenerStep::ReportLagAndContinue {
            missed: n,
        }),
{
    match received {
        Received::Event => ListenerStep::Dispatch,
        Received::Lagged(missed) => ListenerStep::ReportLagAndContinue { missed },
        Received::Closed => ListenerStep::Stop,
    }
}

} // verus!
