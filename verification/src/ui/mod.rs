//! What the front end needs from the library: the menu and its navigation.

pub mod menu;

use vstd::prelude::*;

verus! {

/// What can go wrong in the front end.
#[derive(Debug)]
pub enum UIError {
    /// Reading or writing failed; the text says how.
    IOError(String),
    /// The action asked for cannot be done in the state the front end is in.
    ImpossibleAction,
}

} // verus!
