//! The readiness protocol: from "a page was asked for" to "the diagram on
//! it can be used".
//!
//! The extension draws its diagram some time after the page has loaded, so
//! a loaded page is not a ready one. The protocol is a script of five
//! steps: wait for the tab, load the page, look for the label of a
//! collapsed declaration, click it, and wait for the diagram. Not finding
//! the label is no failure: the declaration may be expanded already.
//! Clicking it can delay the diagram, so the wait for the diagram always
//! comes last and nothing stands in for it.

use crate::error::HarnessError;
use crate::run::{run, run_from, stands_alone, well_formed};
use crate::script::{past_users, Step};
use crate::targets::{macro_page, PageTarget, COLLAPSED_TOGGLE};
use vstd::prelude::*;

verus! {

/// The readiness script of a page.
pub open spec fn readiness<'a>(page: PageTarget<'a>) -> Seq<Step<'a>> {
    seq![
        Step::AwaitTab,
        Step::Navigate(page.url),
        Step::Probe(COLLAPSED_TOGGLE),
        Step::Click,
        Step::WaitFor(page.ready),
    ]
}

/// How the readiness protocol ends, stated over what the browser reports:
/// whether the tab came, whether the page loaded, whether the collapsed
/// label was found, whether the click on it was taken, and whether the
/// diagram appeared.
pub open spec fn readiness_result(
    tab: bool,
    loaded: bool,
    collapsed: bool,
    clicked: bool,
    diagram: bool,
) -> Result<(), HarnessError> {
    if !tab {
        Err(HarnessError::Timeout)
    } else if !loaded {
        Err(HarnessError::Interaction)
    } else if collapsed && !clicked {
        Err(HarnessError::Interaction)
    } else if !diagram {
        Err(HarnessError::Timeout)
    } else {
        Ok(())
    }
}

/// The script that brings the tab to a page and waits until the page is
/// ready: the tab, the page, the collapsed label if there is one, and last
/// the element that makes the page ready.
pub fn readiness_script<'a>(page: PageTarget<'a>) -> (r: Vec<Step<'a>>)
    ensures
        r@ == readiness(page),
        well_formed(r@),
{
    proof {
        lemma_readiness_well_formed(page);
    }
    let mut steps: Vec<Step<'a>> = Vec::new();
    steps.push(Step::AwaitTab);
    steps.push(Step::Navigate(page.url));
    steps.push(Step::Probe(COLLAPSED_TOGGLE));
    steps.push(Step::Click);
    steps.push(Step::WaitFor(page.ready));
    steps
}

/// The script that brings the tab to the macro page at `url` and waits for
/// its diagram.
pub fn navigate_to_macro_page<'a>(url: &'a str) -> (r: Vec<Step<'a>>)
    ensures
        r@ == readiness(macro_page(url)),
        well_formed(r@),
{
    readiness_script(PageTarget::macro_page(url))
}

/// The readiness script is well formed, and it can follow any script.
pub proof fn lemma_readiness_well_formed(page: PageTarget)
    ensures
        well_formed(readiness(page)),
        stands_alone(readiness(page)),
{
    let steps = readiness(page);
    assert(steps[2].spec_locates());
}

/// A run of the readiness script ends as `readiness_result` says of the
/// outcomes of its five steps.
pub proof fn lemma_readiness_run(page: PageTarget, oks: Seq<bool>)
    requires
        oks.len() == 5,
    ensures
        run(readiness(page), oks) == readiness_result(oks[0], oks[1], oks[2], oks[3], oks[4]),
{
    let steps = readiness(page);
    reveal_with_fuel(run_from, 6);
    reveal_with_fuel(past_users, 3);
    assert(steps[3].spec_uses_element());
    assert(!steps[4].spec_uses_element());
}

/// The wait for the diagram decides: a run that ends ready has seen the
/// diagram appear, whatever the steps before reported.
pub proof fn lemma_ready_means_diagram_appeared(page: PageTarget, oks: Seq<bool>)
    requires
        oks.len() == 5,
        run(readiness(page), oks) is Ok,
    ensures
        oks[4],
{
    lemma_readiness_run(page, oks);
}

/// A page on which the diagram never appears ends the protocol with a
/// failure, and with a timeout where nothing failed before the wait.
pub proof fn lemma_missing_diagram_times_out(page: PageTarget, oks: Seq<bool>)
    requires
        oks.len() == 5,
        !oks[4],
    ensures
        run(readiness(page), oks) is Err,
        oks[0] && oks[1] && (oks[2] ==> oks[3]) ==> run(readiness(page), oks) == Err::<
            (),
            HarnessError,
        >(HarnessError::Timeout),
{
    lemma_readiness_run(page, oks);
}

/// A page whose declaration is not collapsed still becomes ready: where the
/// label is not found, the click is passed over, its recorded outcome plays
/// no part, and the run ends as the tab, the load and the diagram decide.
pub proof fn lemma_absent_label_is_no_failure(page: PageTarget, oks: Seq<bool>)
    requires
        oks.len() == 5,
        !oks[2],
    ensures
        run(readiness(page), oks) == readiness_result(oks[0], oks[1], false, true, oks[4]),
        oks[0] && oks[1] && oks[4] ==> run(readiness(page), oks) is Ok,
{
    lemma_readiness_run(page, oks);
}

/// Running the protocol again on the same page ends the same way. The
/// first run may find the declaration collapsed and expand it, the second
/// then finds it expanded; as long as a label that is found takes its
/// click, two runs that see the same tab, load and diagram end alike.
pub proof fn lemma_waiter_repeats(page: PageTarget, first: Seq<bool>, second: Seq<bool>)
    requires
        first.len() == 5,
        second.len() == 5,
        first[0] == second[0],
        first[1] == second[1],
        first[4] == second[4],
        first[2] ==> first[3],
        second[2] ==> second[3],
    ensures
        run(readiness(page), first) == run(readiness(page), second),
{
    lemma_readiness_run(page, first);
    lemma_readiness_run(page, second);
}

} // verus!
