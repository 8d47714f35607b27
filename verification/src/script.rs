//! Scripts: the sequences of requests that drive a tab, and the rule by
//! which a run moves from one step to the next.
//!
//! The caller owns the browser. It performs one step at a time and reports
//! whether the step succeeded; [`after`] then says where the run goes next.
//! Steps run strictly in order. A failed step ends the run with the failure
//! that belongs to that kind of step, with one exception: a [`Step::Probe`]
//! that finds nothing is no failure, and only the steps that would have
//! used the element it looked for are passed over.

use crate::error::HarnessError;
use vstd::prelude::*;

verus! {

/// One request to the tab, or to the files beside it.
#[derive(Clone, Copy, Debug, PartialEq, Eq)]
pub enum Step<'a> {
    /// Wait, within the browser's bound, for its first tab.
    AwaitTab,
    /// Load the address in the tab.
    Navigate(&'a str),
    /// Wait, within the bound, for an element matching the selector; not
    /// finding it is no failure.
    Probe(&'a str),
    /// Wait, within the bound, for an element matching the selector.
    WaitFor(&'a str),
    /// Wait, within the bound, until no element matches the selector.
    WaitGone(&'a str),
    /// Look the selector up at once, without waiting.
    Find(&'a str),
    /// Click the element that the step before located.
    Click,
    /// Read the box model of the element that the step before located.
    Measure,
    /// Let the given number of milliseconds pass.
    Settle(u64),
    /// Capture an image of the whole page.
    Capture,
    /// Write the image last captured to the named file.
    Save(&'a str),
}

/// Where a run stands after a step.
#[derive(Clone, Copy, Debug, PartialEq, Eq, Structural)]
pub enum Progress {
    /// The step at this index is to be performed next.
    Next(usize),
    /// Every step has been performed or passed over.
    Finished,
    /// The run ended with this failure.
    Failed(HarnessError),
}

impl<'a> Step<'a> {
    /// The failure that ends the run when this step does not succeed, or
    /// `None` for a step whose failure the run survives.
    pub open spec fn spec_failure(self) -> Option<HarnessError> {
        match self {
            Step::AwaitTab => Some(HarnessError::Timeout),
            Step::Navigate(_) => Some(HarnessError::Interaction),
            Step::Probe(_) => None,
            Step::WaitFor(_) => Some(HarnessError::Timeout),
            Step::WaitGone(_) => Some(HarnessError::Timeout),
            Step::Find(_) => Some(HarnessError::Interaction),
            Step::Click => Some(HarnessError::Interaction),
            Step::Measure => Some(HarnessError::Interaction),
            Step::Settle(_) => None,
            Step::Capture => Some(HarnessError::Interaction),
            Step::Save(_) => Some(HarnessError::Io),
        }
    }

    /// Whether this step looks for an element that a later step can use.
    pub open spec fn spec_locates(self) -> bool {
        self is Probe || self is WaitFor || self is Find
    }

    /// Whether this step uses the element that an earlier step located.
    pub open spec fn spec_uses_element(self) -> bool {
        self is Click || self is Measure
    }

    /// The failure that ends the run when this step does not succeed:
    /// a timeout for every wait, an I/O failure for writing a file, an
    /// interaction failure for the rest; `None` for a probe and for a
    /// delay, whose failure the run survives.
    pub fn failure(&self) -> (r: Option<HarnessError>)
        ensures
            r == self.spec_failure(),
    {
        match self {
            Step::AwaitTab => Some(HarnessError::Timeout),
            Step::Navigate(_) => Some(HarnessError::Interaction),
            Step::Probe(_) => None,
            Step::WaitFor(_) => Some(HarnessError::Timeout),
            Step::WaitGone(_) => Some(HarnessError::Timeout),
            Step::Find(_) => Some(HarnessError::Interaction),
            Step::Click => Some(HarnessError::Interaction),
            Step::Measure => Some(HarnessError::Interaction),
            Step::Settle(_) => None,
            Step::Capture => Some(HarnessError::Interaction),
            Step::Save(_) => Some(HarnessError::Io),
        }
    }

    /// Whether this step looks for an element that a later step can use.
    pub fn locates(&self) -> (r: bool)
        ensures
            r == self.spec_locates(),
    {
        match self {
            Step::Probe(_) | Step::WaitFor(_) | Step::Find(_) => true,
            _ => false,
        }
    }

    /// Whether this step uses the element that an earlier step located.
    pub fn uses_element(&self) -> (r: bool)
        ensures
            r == self.spec_uses_element(),
    {
        match self {
            Step::Click | Step::Measure => true,
            _ => false,
        }
    }
}

/// The first index at or after `from` whose step does not use a located
/// element, or the length of the script where there is none.
pub open spec fn past_users(steps: Seq<Step>, from: int) -> int
    decreases steps.len() - from,
{
    if 0 <= from < steps.len() && steps[from].spec_uses_element() {
        past_users(steps, from + 1)
    } else {
        from
    }
}

/// The index a run goes on with after the step at `at`, which did not end
/// it: the next one after a success, and after a survived failure the
/// first one that does not depend on the element that was not found.
pub open spec fn successor(steps: Seq<Step>, at: int, ok: bool) -> int {
    if ok {
        at + 1
    } else {
        past_users(steps, at + 1)
    }
}

/// Where a run stands once the step at `at` has been performed with the
/// outcome `ok`.
pub open spec fn spec_after(steps: Seq<Step>, at: int, ok: bool) -> Progress {
    if at < 0 || at >= steps.len() {
        Progress::Finished
    } else if !ok && steps[at].spec_failure() is Some {
        Progress::Failed(steps[at].spec_failure()->0)
    } else if successor(steps, at, ok) >= steps.len() {
        Progress::Finished
    } else {
        Progress::Next(successor(steps, at, ok) as usize)
    }
}

/// Where a run of the script starts.
pub open spec fn spec_begin(steps: Seq<Step>) -> Progress {
    if steps.len() == 0 {
        Progress::Finished
    } else {
        Progress::Next(0)
    }
}

/// `past_users` stays inside the script, never goes back, and passes over
/// nothing but steps that use a located element.
pub proof fn lemma_past_users(steps: Seq<Step>, from: int)
    requires
        0 <= from <= steps.len(),
    ensures
        from <= past_users(steps, from) <= steps.len(),
        forall|k: int| from <= k < past_users(steps, from) ==> (#[trigger] steps[k]).spec_uses_element(),
        past_users(steps, from) < steps.len() ==> !steps[past_users(steps, from)].spec_uses_element(),
    decreases steps.len() - from,
{
    if from < steps.len() && steps[from].spec_uses_element() {
        lemma_past_users(steps, from + 1);
    }
}

/// A run only moves forward, and it passes over nothing but steps that
/// would have used an element that was not found: after a success the next
/// step is the one that follows, and after a survived failure every step
/// between the failed one and the next uses a located element.
pub proof fn lemma_after_moves_forward(steps: Seq<Step>, at: int, ok: bool)
    requires
        steps.len() <= usize::MAX,
    ensures
        spec_after(steps, at, ok) matches Progress::Next(j) ==> {
            &&& at < j < steps.len()
            &&& ok ==> j == at + 1
            &&& forall|k: int| at < k < j ==> (#[trigger] steps[k]).spec_uses_element()
            &&& !ok ==> !steps[j as int].spec_uses_element()
        },
{
    if 0 <= at < steps.len() {
        lemma_past_users(steps, at + 1);
    }
}

/// Where a run of the script starts: at its first step, or finished at
/// once where the script is empty.
pub fn begin(steps: &Vec<Step>) -> (r: Progress)
    ensures
        r == spec_begin(steps@),
{
    if steps.len() == 0 {
        Progress::Finished
    } else {
        Progress::Next(0)
    }
}

/// Where a run stands once the step at `at` has been performed with the
/// outcome `ok`. A success leads to the next step. A failure ends the run
/// with the failure of that kind of step; the failure of a probe or of a
/// delay does not, and the run goes on behind the steps that would have
/// used the element. Past the last step the run is finished.
pub fn after(steps: &Vec<Step>, at: usize, ok: bool) -> (r: Progress)
    ensures
        r == spec_after(steps@, at as int, ok),
{
    let n = steps.len();
    if at >= n {
        return Progress::Finished;
    }
    if !ok {
        match steps[at].failure() {
            Some(e) => {
                return Progress::Failed(e);
            },
            None => {},
        }
    }
    let mut next: usize = at + 1;
    if !ok {
        while next < n && steps[next].uses_element()
            invariant
                at + 1 <= next <= n,
                n == steps@.len(),
                past_users(steps@, at + 1) == past_users(steps@, next as int),
            decreases n - next,
        {
            next = next + 1;
        }
    }
    if next >= n {
        Progress::Finished
    } else {
        Progress::Next(next)
    }
}

} // verus!
