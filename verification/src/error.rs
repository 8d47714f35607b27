//! The kinds of failure a harness run can end with.

use vstd::prelude::*;

verus! {

/// Why a run, or one scenario of it, was given up. A failure is never
/// retried: it ends the scenario it came up in and is handed upward.
#[derive(Clone, Copy, Debug, PartialEq, Eq, Structural)]
pub enum HarnessError {
    /// The path to the packed extension was not supplied.
    Config,
    /// The archive could not be read or unpacked, or a file could not be
    /// written.
    Io,
    /// The browser process did not start or did not answer.
    Launch,
    /// A state of the page that was waited for never came about: an element
    /// did not appear, or did not disappear, within the wait.
    Timeout,
    /// The page did not take an action: an element looked up without
    /// waiting was absent, or a request to the tab was turned down.
    Interaction,
}

} // verus!
