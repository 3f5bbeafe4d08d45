//! A schedulable, cancellable, repeatable alarm over native timer facilities.
//!
//! `callback` erases a callable to a context word and the trampoline that reads it
//! back; `timer` is the state machine every native backend follows: initialized at
//! most once, armed and disarmed any number of times, torn down once, with the heap
//! closure it owns reclaimed exactly then; `time` turns spans into the time values
//! the native facilities take; `laws` states what holds across these operations.
use vstd::prelude::*;

pub mod callback;
pub mod laws;
pub mod time;
pub mod timer;

verus! {

} // verus!
