//! The duplex byte relay between the processor side's queues and the
//! peripheral module, as a state machine: the caller performs each action and
//! reports what came of it.
use vstd::prelude::*;

verus! {

/// How long the relay pauses once both directions are drained, in
/// microseconds.
pub const RELAY_SLEEP_US: u64 = 100;

/// Which part of its round the relay is in.
#[derive(Clone, Copy, Debug, PartialEq, Eq, Structural)]
pub enum RelayPhase {
    /// Draining the processor side's outbound queue into the module.
    FromExecution,
    /// Draining the module's output into the processor side's inbound queue.
    FromModule,
    /// Sleeping before the next round.
    Paused,
    /// A queue closed under the relay; it cannot go on.
    Stopped,
}

/// What the caller observed while carrying out the last action.
#[derive(Clone, Copy, Debug, PartialEq, Eq, Structural)]
pub enum RelayEvent {
    /// The outbound queue yielded a byte.
    Outbound(u8),
    /// The outbound queue has nothing pending.
    OutboundEmpty,
    /// The outbound queue's producer has exited.
    OutboundClosed,
    /// The module's byte-ready probe yielded a byte.
    ModuleByte(u8),
    /// The module has no byte ready.
    ModuleIdle,
    /// The inbound queue's consumer has exited.
    InboundClosed,
    /// The pause is over.
    Woke,
}

/// What the caller must do next.
#[derive(Clone, Copy, Debug, PartialEq, Eq, Structural)]
pub enum RelayAction {
    /// Try to take a byte from the outbound queue.
    PollOutbound,
    /// Hand the byte to the module's ingestion call, then poll the outbound
    /// queue again.
    ForwardToModule(u8),
    /// Probe the module for a ready byte.
    PollModule,
    /// Put the byte on the inbound queue, then probe the module again.
    ForwardToExecution(u8),
    /// Sleep this many microseconds, then report `Woke`.
    Sleep(u64),
    /// End the process: one side is gone and the other cannot go on alone.
    Abort,
}

/// The relay's transition table: next phase and action for an event.
pub open spec fn relay_next(phase: RelayPhase, ev: RelayEvent) -> (RelayPhase, RelayAction) {
    if phase == RelayPhase::Stopped || ev == RelayEvent::OutboundClosed || ev
        == RelayEvent::InboundClosed {
        (RelayPhase::Stopped, RelayAction::Abort)
    } else {
        match phase {
            RelayPhase::FromExecution => match ev {
                RelayEvent::Outbound(b) => (RelayPhase::FromExecution, RelayAction::ForwardToModule(b)),
                RelayEvent::OutboundEmpty => (RelayPhase::FromModule, RelayAction::PollModule),
                _ => (RelayPhase::FromExecution, RelayAction::PollOutbound),
            },
            RelayPhase::FromModule => match ev {
                RelayEvent::ModuleByte(b) => (RelayPhase::FromModule, RelayAction::ForwardToExecution(b)),
                RelayEvent::ModuleIdle => (RelayPhase::Paused, RelayAction::Sleep(RELAY_SLEEP_US)),
                _ => (RelayPhase::FromModule, RelayAction::PollModule),
            },
            _ => match ev {
                RelayEvent::Woke => (RelayPhase::FromExecution, RelayAction::PollOutbound),
                _ => (RelayPhase::Paused, RelayAction::Sleep(RELAY_SLEEP_US)),
            },
        }
    }
}

/// The relay's position in its round.
#[derive(Clone, Copy, Debug)]
pub struct Relay {
    pub phase: RelayPhase,
}

impl Relay {
    /// A relay about to drain the outbound queue; its first action is
    /// `PollOutbound`.
    pub fn new() -> (r: Relay)
        ensures
            r.phase == RelayPhase::FromExecution,
    {
        Relay { phase: RelayPhase::FromExecution }
    }

    /// Takes what the caller observed and returns the next action.
    pub fn step(&mut self, ev: RelayEvent) -> (r: RelayAction)
        ensures
            (final(self).phase, r) == relay_next(old(self).phase, ev),
    {
        if self.phase == RelayPhase::Stopped || ev == RelayEvent::OutboundClosed || ev
            == RelayEvent::InboundClosed {
            self.phase = RelayPhase::Stopped;
            return RelayAction::Abort;
        }
        match self.phase {
            RelayPhase::FromExecution => match ev {
                RelayEvent::Outbound(b) => RelayAction::ForwardToModule(b),
                RelayEvent::OutboundEmpty => {
                    self.phase = RelayPhase::FromModule;
                    RelayAction::PollModule
                },
                _ => RelayAction::PollOutbound,
            },
            RelayPhase::FromModule => match ev {
                RelayEvent::ModuleByte(b) => RelayAction::ForwardToExecution(b),
                RelayEvent::ModuleIdle => {
                    self.phase = RelayPhase::Paused;
                    RelayAction::Sleep(RELAY_SLEEP_US)
                },
                _ => RelayAction::PollModule,
            },
            _ => match ev {
                RelayEvent::Woke => {
                    self.phase = RelayPhase::FromExecution;
                    RelayAction::PollOutbound
                },
                _ => RelayAction::Sleep(RELAY_SLEEP_US),
            },
        }
    }
}

/// A byte is forwarded only as the answer to the event that delivered it
/// whole from its source, in the phase that drains that source; the byte is
/// passed on unchanged, and no forward ever follows a closed queue.
pub proof fn lemma_forward_only_available(phase: RelayPhase, ev: RelayEvent)
    ensures
        relay_next(phase, ev).1 matches RelayAction::ForwardToModule(b) ==> phase
            == RelayPhase::FromExecution && ev == RelayEvent::Outbound(b),
        relay_next(phase, ev).1 matches RelayAction::ForwardToExecution(b) ==> phase
            == RelayPhase::FromModule && ev == RelayEvent::ModuleByte(b),
        phase == RelayPhase::FromExecution ==> (ev matches RelayEvent::Outbound(b) ==> relay_next(
            phase,
            ev,
        ) == (RelayPhase::FromExecution, RelayAction::ForwardToModule(b))),
        phase == RelayPhase::FromModule ==> (ev matches RelayEvent::ModuleByte(b) ==> relay_next(
            phase,
            ev,
        ) == (RelayPhase::FromModule, RelayAction::ForwardToExecution(b))),
        phase == RelayPhase::Stopped ==> relay_next(phase, ev) == (
            RelayPhase::Stopped,
            RelayAction::Abort,
        ),
{
}

} // verus!
