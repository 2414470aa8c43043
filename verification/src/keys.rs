//! Plain model of a keyboard event. The terminal backend delivers richer
//! structures; the core only ever distinguishes the submit and cancel keys,
//! printable characters and deletion, so the adapter outside this crate maps
//! each raw event onto one of these values before handing it in.

use vstd::prelude::*;

verus! {

/// The part of a key press that the core inspects.
#[derive(Debug, Clone, Copy, PartialEq, Eq, Structural)]
pub enum KeyCode {
    /// Cancels Insert mode.
    Esc,
    /// Submits the composed line.
    Enter,
    /// Deletes the last character of the composed line.
    Backspace,
    /// A printable character, appended to the composed line.
    Char(char),
    /// Any key the core does not interpret.
    Other,
}

/// One keyboard event as the core sees it.
#[derive(Debug, Clone, Copy, PartialEq, Eq, Structural)]
pub struct KeyEvent {
    pub code: KeyCode,
}

} // verus!
