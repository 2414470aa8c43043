//! The closed set of messages the system reacts to: lifecycle signals,
//! mode transitions, counter mutations and text-input completion. Values
//! are immutable; a producer creates one, the dispatch loop consumes it.

use vstd::prelude::*;

verus! {

/// One event or intent in the system.
#[derive(Debug, Clone)]
pub enum Action {
    Tick,
    Render,
    Resize(u16, u16),
    Suspend,
    Resume,
    Quit,
    Refresh,
    Error(String),
    Help,
    ToggleShowHelp,
    IncrementSingle,
    DecrementSingle,
    ScheduleIncrement,
    ScheduleDecrement,
    Increment(usize),
    Decrement(usize),
    CompleteInput(String),
    EnterNormal,
    EnterInsert,
    EnterProcessing,
    ExitProcessing,
    Update,
}

} // verus!
