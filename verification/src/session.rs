//! The life of a browser session: what it holds at each stage, how it is
//! opened, and in which order what it holds is let go.
//!
//! A session owns two things, the directory of the unpacked extension and
//! the browser process that loads the extension from it. The browser must
//! never run on a directory that is gone. So the directory comes first and
//! goes last, on every path out of a session, also on the path out of an
//! opening that failed half way.

use crate::error::HarnessError;
use vstd::prelude::*;

verus! {

/// The width of the browser window, in pixels.
pub const WINDOW_WIDTH: u32 = 1600;

/// The height of the browser window, in pixels.
pub const WINDOW_HEIGHT: u32 = 1400;

/// How the browser is started. The extension directory and the browser's
/// executable are found by the caller.
#[derive(Clone, Copy, Debug, PartialEq, Eq, Structural)]
pub struct LaunchOptions {
    pub window_width: u32,
    pub window_height: u32,
    /// Whether the browser runs without a window. Extensions are loaded
    /// only by a browser that shows one.
    pub headless: bool,
}

/// What a session holds.
#[derive(Clone, Copy, Debug, PartialEq, Eq, Structural)]
pub enum Stage {
    /// Nothing.
    Closed,
    /// The directory of the unpacked extension.
    Extracted,
    /// The directory and the browser process that runs on it.
    Live,
}

/// A step of opening a session.
#[derive(Clone, Copy, Debug, PartialEq, Eq, Structural)]
pub enum Acquire {
    /// Unpack the extension into a fresh temporary directory.
    ExtractBundle,
    /// Start the browser on the directory.
    LaunchBrowser,
}

/// A step of closing a session.
#[derive(Clone, Copy, Debug, PartialEq, Eq, Structural)]
pub enum Release {
    /// End the browser process.
    StopBrowser,
    /// Delete the directory of the unpacked extension, with all in it.
    RemoveBundle,
}

impl Stage {
    /// Whether the directory of the unpacked extension exists.
    pub open spec fn holds_bundle(self) -> bool {
        self is Extracted || self is Live
    }

    /// Whether the browser process runs.
    pub open spec fn holds_browser(self) -> bool {
        self is Live
    }

    /// What opening does next at this stage, if anything is left to do.
    pub open spec fn spec_next(self) -> Option<Acquire> {
        match self {
            Stage::Closed => Some(Acquire::ExtractBundle),
            Stage::Extracted => Some(Acquire::LaunchBrowser),
            Stage::Live => None,
        }
    }

    /// The stage after the step of opening that was due has been tried.
    pub open spec fn spec_acquired(self, ok: bool) -> Result<Stage, HarnessError> {
        match self {
            Stage::Closed => if ok {
                Ok(Stage::Extracted)
            } else {
                Err(HarnessError::Io)
            },
            Stage::Extracted => if ok {
                Ok(Stage::Live)
            } else {
                Err(HarnessError::Launch)
            },
            Stage::Live => Ok(Stage::Live),
        }
    }

    /// What a session at this stage has to let go, in order.
    pub open spec fn spec_teardown(self) -> Seq<Release> {
        match self {
            Stage::Closed => seq![],
            Stage::Extracted => seq![Release::RemoveBundle],
            Stage::Live => seq![Release::StopBrowser, Release::RemoveBundle],
        }
    }

    /// The stage that is left when the first `done` steps of the teardown
    /// have been carried out.
    pub open spec fn during_teardown(self, done: int) -> Stage {
        if done <= 0 {
            self
        } else if self is Live && done == 1 {
            Stage::Extracted
        } else {
            Stage::Closed
        }
    }

    /// What opening does next: unpack the extension first, start the
    /// browser on it second, and nothing once both are there.
    pub fn next(&self) -> (r: Option<Acquire>)
        ensures
            r == self.spec_next(),
    {
        match self {
            Stage::Closed => Some(Acquire::ExtractBundle),
            Stage::Extracted => Some(Acquire::LaunchBrowser),
            Stage::Live => None,
        }
    }

    /// The stage after the step that was due has been tried. A step that
    /// went through leads to the next stage. Unpacking that failed is an
    /// I/O failure; a browser that did not start is a launch failure and
    /// leaves the directory to be removed. The stage a failure happened at
    /// is the one to tear down.
    pub fn acquired(&self, ok: bool) -> (r: Result<Stage, HarnessError>)
        ensures
            r == self.spec_acquired(ok),
    {
        match self {
            Stage::Closed => if ok {
                Ok(Stage::Extracted)
            } else {
                Err(HarnessError::Io)
            },
            Stage::Extracted => if ok {
                Ok(Stage::Live)
            } else {
                Err(HarnessError::Launch)
            },
            Stage::Live => Ok(Stage::Live),
        }
    }

    /// What a session at this stage has to let go, in order: the browser
    /// process first, where it runs, and then the directory, where it
    /// exists.
    pub fn teardown(&self) -> (r: Vec<Release>)
        ensures
            r@ == self.spec_teardown(),
    {
        let mut steps: Vec<Release> = Vec::new();
        match self {
            Stage::Closed => {},
            Stage::Extracted => {
                steps.push(Release::RemoveBundle);
            },
            Stage::Live => {
                steps.push(Release::StopBrowser);
                steps.push(Release::RemoveBundle);
            },
        }
        steps
    }
}

/// The options the browser is started with: a window of the fixed size,
/// shown on the screen.
pub fn launch_options() -> (r: LaunchOptions)
    ensures
        r == (LaunchOptions {
            window_width: WINDOW_WIDTH,
            window_height: WINDOW_HEIGHT,
            headless: false,
        }),
{
    LaunchOptions { window_width: WINDOW_WIDTH, window_height: WINDOW_HEIGHT, headless: false }
}

/// At no stage does a browser run without its directory, and opening
/// never leads to such a stage.
pub proof fn lemma_browser_needs_bundle(stage: Stage, ok: bool)
    ensures
        stage.holds_browser() ==> stage.holds_bundle(),
        stage.spec_acquired(ok) matches Ok(next) ==> (next.holds_browser() ==> next.holds_bundle()),
        stage.spec_next() == Some(Acquire::LaunchBrowser) ==> stage.holds_bundle(),
{
}

/// Tearing a session down lets go of everything it holds, of each thing
/// once, and of the browser before the directory: while the teardown is
/// under way the browser never runs without its directory, the step that
/// removes the directory finds no browser running, and at the end nothing
/// is held.
pub proof fn lemma_teardown_order(stage: Stage)
    ensures
        stage.during_teardown(stage.spec_teardown().len() as int) == Stage::Closed,
        forall|done: int|
            0 <= done <= stage.spec_teardown().len() ==> (#[trigger] stage.during_teardown(
                done,
            )).holds_browser() ==> stage.during_teardown(done).holds_bundle(),
        forall|done: int|
            0 <= done < stage.spec_teardown().len() ==> match #[trigger] stage.spec_teardown()[done] {
                Release::StopBrowser => stage.during_teardown(done).holds_browser()
                    && !stage.during_teardown(done + 1).holds_browser()
                    && stage.during_teardown(done + 1).holds_bundle(),
                Release::RemoveBundle => !stage.during_teardown(done).holds_browser()
                    && stage.during_teardown(done).holds_bundle() && !stage.during_teardown(
                    done + 1,
                ).holds_bundle(),
            },
{
}

} // verus!
