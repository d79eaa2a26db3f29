//! Failures of single commands. None of them stops the reducer.

use crate::timer::TimerState;
use vstd::prelude::*;

verus! {

/// Why a command was dropped.
#[derive(Clone, Copy, Debug, PartialEq, Eq, Structural)]
pub enum Error {
    /// A timer was asked for a transition that its state does not allow; the
    /// state it was in is attached.
    InvalidTransition(TimerState),
    /// No timer has the index that the command named; the index is attached.
    IndexOutOfRange(usize),
    /// The sending side of a mailbox is gone: no event will ever arrive.
    Disconnected,
}

} // verus!
