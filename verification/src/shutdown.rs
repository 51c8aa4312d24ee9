//! The way down: from serving, through draining, to stopped.
//!
//! Two signals can ask the service to stop, an interrupt from the terminal
//! and the platform's request to terminate. The second does not exist on
//! every platform, and where it does not, it is never heard. The first signal
//! heard begins the drain: no new connection is accepted, and those in flight
//! are left to finish. Nothing in flight is cancelled.

use vstd::prelude::*;

verus! {

/// A signal that asks the service to stop.
#[derive(Clone, Copy, Debug, PartialEq, Eq, Structural)]
pub enum Trigger {
    /// The interactive interrupt.
    Interrupt,
    /// The platform's request to terminate.
    Terminate,
}

/// Where the service stands on its way down. Once it has left `Running` it
/// remembers the signal that made it leave.
#[derive(Clone, Copy, Debug, PartialEq, Eq, Structural)]
pub enum ShutdownPhase {
    /// Serving, and accepting connections.
    Running,
    /// Accepting nothing new; waiting for the connections in flight.
    Draining(Trigger),
    /// Nothing is in flight any more.
    Stopped(Trigger),
}

/// An event on the way down.
#[derive(Clone, Copy, Debug, PartialEq, Eq, Structural)]
pub enum ShutdownEvent {
    /// A signal arrived.
    Signal(Trigger),
    /// The last connection in flight has finished.
    Drained,
}

/// Whether a platform, which has the terminate signal or has not, can
/// deliver `trigger` at all.
pub open spec fn heard(terminate_available: bool, trigger: Trigger) -> bool {
    trigger == Trigger::Interrupt || terminate_available
}

impl ShutdownPhase {
    /// The phase after `event`. A signal moves a running service to
    /// draining, if the platform can deliver it, and is ignored otherwise;
    /// the end of the drain moves a draining service to stopped.
    pub open spec fn step(self, terminate_available: bool, event: ShutdownEvent) -> ShutdownPhase {
        match (self, event) {
            (ShutdownPhase::Running, ShutdownEvent::Signal(trigger)) => if heard(
                terminate_available,
                trigger,
            ) {
                ShutdownPhase::Draining(trigger)
            } else {
                ShutdownPhase::Running
            },
            (ShutdownPhase::Draining(cause), ShutdownEvent::Drained) => ShutdownPhase::Stopped(
                cause,
            ),
            _ => self,
        }
    }

    /// The phase after a run of events.
    pub open spec fn run(self, terminate_available: bool, events: Seq<ShutdownEvent>) -> ShutdownPhase
        decreases events.len(),
    {
        if events.len() == 0 {
            self
        } else {
            self.step(terminate_available, events[0]).run(
                terminate_available,
                events.drop_first(),
            )
        }
    }

    /// How far down this phase is.
    pub open spec fn depth(self) -> nat {
        match self {
            ShutdownPhase::Running => 0,
            ShutdownPhase::Draining(_) => 1,
            ShutdownPhase::Stopped(_) => 2,
        }
    }

    /// The signal that began the drain, once one has.
    pub open spec fn cause(self) -> Option<Trigger> {
        match self {
            ShutdownPhase::Running => None,
            ShutdownPhase::Draining(cause) => Some(cause),
            ShutdownPhase::Stopped(cause) => Some(cause),
        }
    }
}

/// Follows the service on its way down.
#[derive(Clone, Copy, Debug)]
pub struct ShutdownCoordinator {
    phase: ShutdownPhase,
    terminate_available: bool,
}

impl ShutdownCoordinator {
    /// The phase the service is in.
    pub closed spec fn phase_spec(&self) -> ShutdownPhase {
        self.phase
    }

    /// Whether the platform has the terminate signal.
    pub closed spec fn terminate_available(&self) -> bool {
        self.terminate_available
    }

    /// A coordinator for a running service, on a platform that has the
    /// terminate signal or has not.
    pub fn new(terminate_available: bool) -> (coordinator: ShutdownCoordinator)
        ensures
            coordinator.phase_spec() == ShutdownPhase::Running,
            coordinator.terminate_available() == terminate_available,
    {
        ShutdownCoordinator { phase: ShutdownPhase::Running, terminate_available }
    }

    /// The phase the service is in.
    pub fn phase(&self) -> (phase: ShutdownPhase)
        ensures
            phase == self.phase_spec(),
    {
        self.phase
    }

    /// Whether `trigger` is worth listening for on this platform.
    pub fn listens_for(&self, trigger: Trigger) -> (listens: bool)
        ensures
            listens == heard(self.terminate_available(), trigger),
    {
        match trigger {
            Trigger::Interrupt => true,
            Trigger::Terminate => self.terminate_available,
        }
    }

    /// Whether new connections are accepted.
    pub fn accepting(&self) -> (accepting: bool)
        ensures
            accepting == (self.phase_spec() == ShutdownPhase::Running),
    {
        match self.phase {
            ShutdownPhase::Running => true,
            _ => false,
        }
    }

    /// Takes note of an event, and says whether it moved the service on.
    pub fn observe(&mut self, event: ShutdownEvent) -> (moved: bool)
        ensures
            final(self).terminate_available() == old(self).terminate_available(),
            final(self).phase_spec() == old(self).phase_spec().step(
                old(self).terminate_available(),
                event,
            ),
            moved == (final(self).phase_spec() != old(self).phase_spec()),
    {
        match (self.phase, event) {
            (ShutdownPhase::Running, ShutdownEvent::Signal(trigger)) => {
                if self.listens_for(trigger) {
                    self.phase = ShutdownPhase::Draining(trigger);
                    true
                } else {
                    false
                }
            },
            (ShutdownPhase::Draining(cause), ShutdownEvent::Drained) => {
                self.phase = ShutdownPhase::Stopped(cause);
                true
            },
            _ => false,
        }
    }
}

/// The service never moves back up: no event lessens the depth, and none
/// skips a phase.
pub proof fn lemma_step_goes_down(
    phase: ShutdownPhase,
    terminate_available: bool,
    event: ShutdownEvent,
)
    ensures
        phase.depth() <= phase.step(terminate_available, event).depth() <= phase.depth() + 1,
        phase.cause() is Some ==> phase.step(terminate_available, event).cause() == phase.cause(),
{
}

/// Over any run of events the service only moves down, and the signal that
/// began the drain stays the one remembered: the first that was heard wins.
pub proof fn lemma_run_goes_down(
    phase: ShutdownPhase,
    terminate_available: bool,
    events: Seq<ShutdownEvent>,
)
    ensures
        phase.depth() <= phase.run(terminate_available, events).depth(),
        phase.cause() is Some ==> phase.run(terminate_available, events).cause() == phase.cause(),
    decreases events.len(),
{
    if events.len() > 0 {
        lemma_step_goes_down(phase, terminate_available, events[0]);
        lemma_run_goes_down(
            phase.step(terminate_available, events[0]),
            terminate_available,
            events.drop_first(),
        );
    }
}

} // verus!
