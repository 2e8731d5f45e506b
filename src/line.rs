//! Open-drain emulation on a push-pull pin: the direction register and the
//! reconfigurations it asks of the hardware.
use vstd::prelude::*;

verus! {

/// How the physical pin is configured.
#[derive(Clone, Copy, Debug, PartialEq, Eq, Structural)]
pub enum LogicalDirection {
    /// The pin floats and the external pull-up holds the line high unless a device pulls it low.
    Input,
    /// The pin drives the line low.
    Output,
}

/// The direction an open-drain line was last set to. Switching is idempotent:
/// the pin is reconfigured only when the direction actually changes.
#[derive(Clone, Copy, Debug, PartialEq, Eq, Structural)]
pub struct OpenDrainState {
    pub direction: LogicalDirection,
}

/// What a switch to `target` asks of the pin, seen from `current`: the new
/// mode to apply, or nothing when it is already in place.
pub open spec fn reconfiguration(current: LogicalDirection, target: LogicalDirection) -> Option<LogicalDirection> {
    if current == target {
        None
    } else {
        Some(target)
    }
}

impl OpenDrainState {
    /// A line starts released.
    pub fn new() -> (r: OpenDrainState)
        ensures
            r.direction == LogicalDirection::Input,
    {
        OpenDrainState { direction: LogicalDirection::Input }
    }

    fn switch_to(&mut self, target: LogicalDirection) -> (r: Option<LogicalDirection>)
        ensures
            final(self).direction == target,
            r == reconfiguration(old(self).direction, target),
    {
        if self.direction == target {
            None
        } else {
            self.direction = target;
            Some(target)
        }
    }

    /// Lets the line float high. Returns the mode the pin must be switched to,
    /// or `None` when it is already an input.
    pub fn release(&mut self) -> (r: Option<LogicalDirection>)
        ensures
            final(self).direction == LogicalDirection::Input,
            r == reconfiguration(old(self).direction, LogicalDirection::Input),
    {
        self.switch_to(LogicalDirection::Input)
    }

    /// Pulls the line low. Returns the mode the pin must be switched to, or
    /// `None` when it is already an output; the low level is driven either way.
    pub fn drive_low(&mut self) -> (r: Option<LogicalDirection>)
        ensures
            final(self).direction == LogicalDirection::Output,
            r == reconfiguration(old(self).direction, LogicalDirection::Output),
    {
        self.switch_to(LogicalDirection::Output)
    }

    /// Whether the level may be sampled: only while the line is released.
    pub fn can_sample(&self) -> (r: bool)
        ensures
            r == (self.direction == LogicalDirection::Input),
    {
        self.direction == LogicalDirection::Input
    }
}

/// Setting a direction twice reconfigures the pin at most once: the second
/// switch to the same direction asks for nothing.
pub proof fn lemma_switch_idempotent(current: LogicalDirection, target: LogicalDirection)
    ensures
        reconfiguration(target, target) == None::<LogicalDirection>,
        reconfiguration(current, target) is None <==> current == target,
{
}

} // verus!
