//! The decision half of the scheduler. A schedule request describes one
//! delayed background task: the task sends a fixed bracket of three actions
//! into the bus — enter-processing at once, then after the delay the counter
//! payload followed by exit-processing. The timing and the spawning are the
//! driver's business; this module fixes what is sent and in what order.

use vstd::prelude::*;

use crate::action::Action;

verus! {

/// The fixed delay, in seconds, between a task's opening and closing pair.
pub const SCHEDULE_DELAY_SECS: u64 = 1;

/// One delayed counter mutation, handed by the state fold to the driver,
/// which runs it as an independent, non-cancellable task.
#[derive(Debug, Clone, Copy, PartialEq, Eq, Structural)]
pub struct ScheduleRequest {
    /// How much the counter moves when the delay elapses.
    pub amount: usize,
    /// True for an increment, false for a decrement.
    pub increase: bool,
}

impl ScheduleRequest {
    /// The three actions the task emits: the first immediately, the second
    /// and third together once the delay has elapsed.
    pub fn bracket(&self) -> (r: (Action, Action, Action))
        ensures
            r.0 == Action::EnterProcessing,
            self.increase ==> r.1 == Action::Increment(self.amount),
            !self.increase ==> r.1 == Action::Decrement(self.amount),
            r.2 == Action::ExitProcessing,
    {
        let payload = if self.increase {
            Action::Increment(self.amount)
        } else {
            Action::Decrement(self.amount)
        };
        (Action::EnterProcessing, payload, Action::ExitProcessing)
    }
}

} // verus!
