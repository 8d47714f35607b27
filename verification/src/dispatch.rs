//! What a run is asked to do: the mode named on the command line, and the
//! path of the packed extension taken from the environment.

use crate::error::HarnessError;
use crate::readiness::{readiness, readiness_script};
use crate::run::well_formed;
use crate::script::Step;
use crate::targets::{macro_page, PageTarget, URL_PANIC};
use vstd::prelude::*;

verus! {

/// The seconds between two signs of life of the playground.
pub const HEARTBEAT_SECONDS: u64 = 5;

/// What a run does.
#[derive(Clone, Copy, Debug, PartialEq, Eq, Structural)]
pub enum Mode {
    /// Take the planned screenshots and end.
    Screenshots,
    /// Open the reference page and keep the session alive until the
    /// process is ended from outside.
    Playground,
}

/// The mode that a word of the command line names, if it names one.
pub open spec fn mode_named(word: Seq<char>) -> Option<Mode> {
    if word == "screenshots"@ {
        Some(Mode::Screenshots)
    } else if word == "playground"@ {
        Some(Mode::Playground)
    } else {
        None
    }
}

/// The mode that a word of the command line names: `screenshots` or
/// `playground`, spelled exactly so. Any other word names none.
pub fn select_mode(word: &str) -> (r: Option<Mode>)
    ensures
        r == mode_named(word@),
{
    let given = word.to_owned();
    if given == "screenshots".to_owned() {
        Some(Mode::Screenshots)
    } else if given == "playground".to_owned() {
        Some(Mode::Playground)
    } else {
        None
    }
}

/// The path of the packed extension as the environment gave it. A run
/// without it cannot start: its absence is a configuration failure.
pub fn archive_path<T>(given: Option<T>) -> (r: Result<T, HarnessError>)
    ensures
        r == match given {
            Some(path) => Ok::<T, HarnessError>(path),
            None => Err::<T, HarnessError>(HarnessError::Config),
        },
{
    match given {
        Some(path) => Ok(path),
        None => Err(HarnessError::Config),
    }
}

/// The script of the playground: make the reference page ready. After it
/// the session is only kept alive.
pub fn playground() -> (r: Vec<Step<'static>>)
    ensures
        r@ == readiness(macro_page(URL_PANIC)),
        well_formed(r@),
{
    readiness_script(PageTarget::macro_page(URL_PANIC))
}

} // verus!
