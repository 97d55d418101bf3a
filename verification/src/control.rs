//! What holds media work while a stream is paused.
use vstd::prelude::*;

verus! {

/// What held work does next.
#[derive(Clone, Copy, Debug, PartialEq, Eq, Structural)]
pub enum GateStep {
    /// Wait for a change and ask again.
    Wait,
    /// Go on; nothing holds the work.
    Pass,
    /// Give up; the work was cancelled.
    GiveUp,
}

/// Whether media work is held.
#[derive(Clone, Copy, Debug, PartialEq, Eq, Structural)]
pub struct PauseGate {
    pub paused: bool,
}

impl Default for PauseGate {
    fn default() -> (gate: Self)
        ensures
            !gate.paused,
    {
        PauseGate { paused: false }
    }
}

impl PauseGate {
    #[must_use]
    pub fn is_paused(&self) -> (paused: bool)
        ensures
            paused == self.paused,
    {
        self.paused
    }

    pub fn pause(&mut self)
        ensures
            final(self).paused,
    {
        self.paused = true;
    }

    pub fn resume(&mut self)
        ensures
            !final(self).paused,
    {
        self.paused = false;
    }

    /// One look by work that wants to pass. Cancelled work never
    /// passes, whether a pause is on or not.
    #[must_use]
    pub fn step(&self, cancelled: bool) -> (step: GateStep)
        ensures
            step == if cancelled {
                GateStep::GiveUp
            } else if self.paused {
                GateStep::Wait
            } else {
                GateStep::Pass
            },
    {
        if cancelled {
            GateStep::GiveUp
        } else if self.paused {
            GateStep::Wait
        } else {
            GateStep::Pass
        }
    }

    /// One look by work that waits for a pause.
    #[must_use]
    pub fn pause_step(&self, cancelled: bool) -> (step: GateStep)
        ensures
            step == if self.paused {
                GateStep::Pass
            } else if cancelled {
                GateStep::GiveUp
            } else {
                GateStep::Wait
            },
    {
        if self.paused {
            GateStep::Pass
        } else if cancelled {
            GateStep::GiveUp
        } else {
            GateStep::Wait
        }
    }
}

/// Cancelled work never passes; other work passes exactly when no pause is on. Work
/// that waits for a pause passes once one is on, even if it was cancelled.
pub proof fn pauses_hold_and_let_go(
    held: PauseGate,
    cancelled: bool,
    step: GateStep,
    pause_step: GateStep,
)
    requires
        call_ensures(PauseGate::step, (&held, cancelled), step),
        call_ensures(PauseGate::pause_step, (&held, cancelled), pause_step),
    ensures
        step == GateStep::Pass <==> !cancelled && !held.paused,
        step == GateStep::GiveUp <==> cancelled,
        pause_step == GateStep::Pass <==> held.paused,
        pause_step == GateStep::GiveUp <==> cancelled && !held.paused,
{
}

} // verus!
