//! Core of an interactive terminal counter application: the action protocol,
//! the three-state input mode machine, and the state folds that the event
//! loop drives. Rendering, raw terminal input and the asynchronous scheduler
//! plumbing live outside this crate; they exchange plain values with it.

pub mod action;
pub mod home;
pub mod keys;
pub mod laws;
pub mod scheduler;

pub use action::Action;
pub use home::{Home, HomeView, KeyOutcome, ListCursor, MenuItem, Mode, UpdateOutcome};
pub use keys::{KeyCode, KeyEvent};
pub use scheduler::{ScheduleRequest, SCHEDULE_DELAY_SECS};
