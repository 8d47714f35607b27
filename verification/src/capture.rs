//! The screenshot run: which pages are captured, what is done to each page
//! before the capture, and under which name the image is kept.
//!
//! Every capture is a script of its own. It starts with the readiness
//! protocol, so a capture that failed leaves nothing behind that the next
//! one depends on.

use crate::error::HarnessError;
use crate::readiness::{
    lemma_readiness_run, lemma_readiness_well_formed, readiness, readiness_result,
    readiness_script,
};
use crate::run::{
    lemma_run_in_sequence, lemma_run_skipping_nothing, lemma_well_formed_in_sequence, run,
    run_from, skips_nothing, stands_alone, well_formed,
};
use crate::script::Step;
use crate::targets::{
    macro_page, PageTarget, OPTIONS, OPT_FULLSCREEN, URL_INFO, URL_NAMED, URL_PANIC,
};
use vstd::prelude::*;

verus! {

/// How long the full-screen view is given to draw before it is captured,
/// in milliseconds. The view gives no sign of being done.
pub const SETTLE_MILLIS: u64 = 2000;

/// What is done to a ready page before it is captured.
#[derive(Clone, Copy, Debug, PartialEq, Eq, Structural)]
pub enum Interaction {
    /// Nothing: the page is captured as it is once it is ready.
    Untouched,
    /// The options are opened, the full-screen control is waited for and
    /// clicked, and the view is left to settle.
    Fullscreen,
    /// The options are opened.
    Options,
}

/// One capture: the page, what is done to it, and the file the image goes
/// to.
#[derive(Clone, Copy, Debug, PartialEq, Eq)]
pub struct Shot<'a> {
    pub url: &'a str,
    pub interaction: Interaction,
    pub file_name: &'a str,
}

/// The steps of an interaction on a ready page.
pub open spec fn interaction_steps(interaction: Interaction) -> Seq<Step<'static>> {
    match interaction {
        Interaction::Untouched => seq![],
        Interaction::Fullscreen => seq![
            Step::Find(OPTIONS),
            Step::Click,
            Step::WaitFor(OPT_FULLSCREEN),
            Step::Click,
            Step::Settle(SETTLE_MILLIS),
        ],
        Interaction::Options => seq![Step::Find(OPTIONS), Step::Click],
    }
}

/// What follows the readiness protocol in a capture: the interaction, the
/// capture of the whole page, and the writing of the image.
pub open spec fn capture_steps<'a>(shot: Shot<'a>) -> Seq<Step<'a>> {
    interaction_steps(shot.interaction) + seq![Step::Capture, Step::Save(shot.file_name)]
}

/// The whole script of a capture.
pub open spec fn shot_steps<'a>(shot: Shot<'a>) -> Seq<Step<'a>> {
    readiness(macro_page(shot.url)) + capture_steps(shot)
}

/// The captures of a screenshot run, in the order in which they are taken.
pub open spec fn planned_shots() -> Seq<Shot<'static>> {
    seq![
        Shot { url: URL_PANIC, interaction: Interaction::Untouched, file_name: "std_panic.png" },
        Shot {
            url: URL_NAMED,
            interaction: Interaction::Untouched,
            file_name: "nom_named_attr.png",
        },
        Shot { url: URL_PANIC, interaction: Interaction::Fullscreen, file_name: "std_panic_fs.png" },
        Shot {
            url: URL_NAMED,
            interaction: Interaction::Fullscreen,
            file_name: "nom_named_attr_fs.png",
        },
        Shot {
            url: URL_PANIC,
            interaction: Interaction::Options,
            file_name: "std_panic_options.png",
        },
        Shot { url: URL_INFO, interaction: Interaction::Options, file_name: "std_info_options.png" },
    ]
}

/// The steps of a capture are well formed and can follow the readiness
/// script: every click has the lookup of its element directly before it.
pub proof fn lemma_capture_well_formed(shot: Shot)
    ensures
        well_formed(capture_steps(shot)),
        stands_alone(capture_steps(shot)),
{
    let steps = capture_steps(shot);
    match shot.interaction {
        Interaction::Untouched => {},
        Interaction::Fullscreen => {
            assert(steps[0].spec_locates() && steps[2].spec_locates());
        },
        Interaction::Options => {
            assert(steps[0].spec_locates());
        },
    }
}

/// The script of one capture: make the page ready, carry out the
/// interaction, capture the whole page, write the image to the file.
pub fn shot_script<'a>(shot: &Shot<'a>) -> (r: Vec<Step<'a>>)
    ensures
        r@ == shot_steps(*shot),
        well_formed(r@),
{
    proof {
        lemma_capture_well_formed(*shot);
        lemma_readiness_well_formed(macro_page(shot.url));
        lemma_well_formed_in_sequence(readiness(macro_page(shot.url)), capture_steps(*shot));
    }
    let mut steps = readiness_script(PageTarget::macro_page(shot.url));
    let ghost ready = steps@;
    match shot.interaction {
        Interaction::Untouched => {},
        Interaction::Fullscreen => {
            steps.push(Step::Find(OPTIONS));
            steps.push(Step::Click);
            steps.push(Step::WaitFor(OPT_FULLSCREEN));
            steps.push(Step::Click);
            steps.push(Step::Settle(SETTLE_MILLIS));
        },
        Interaction::Options => {
            steps.push(Step::Find(OPTIONS));
            steps.push(Step::Click);
        },
    }
    assert(steps@ == ready + interaction_steps(shot.interaction));
    steps.push(Step::Capture);
    steps.push(Step::Save(shot.file_name));
    assert(steps@ == shot_steps(*shot));
    steps
}

/// The captures of a screenshot run, in the order in which they are taken:
/// two pages as they are, the same two on the full screen, and two with
/// the options open.
pub fn screenshots() -> (r: Vec<Shot<'static>>)
    ensures
        r@ == planned_shots(),
{
    let mut shots: Vec<Shot<'static>> = Vec::new();
    shots.push(
        Shot { url: URL_PANIC, interaction: Interaction::Untouched, file_name: "std_panic.png" },
    );
    shots.push(
        Shot {
            url: URL_NAMED,
            interaction: Interaction::Untouched,
            file_name: "nom_named_attr.png",
        },
    );
    shots.push(
        Shot { url: URL_PANIC, interaction: Interaction::Fullscreen, file_name: "std_panic_fs.png" },
    );
    shots.push(
        Shot {
            url: URL_NAMED,
            interaction: Interaction::Fullscreen,
            file_name: "nom_named_attr_fs.png",
        },
    );
    shots.push(
        Shot {
            url: URL_PANIC,
            interaction: Interaction::Options,
            file_name: "std_panic_options.png",
        },
    );
    shots.push(
        Shot { url: URL_INFO, interaction: Interaction::Options, file_name: "std_info_options.png" },
    );
    shots
}

/// A capture finishes exactly where the page becomes ready and every step
/// after that succeeds, the delay aside, which cannot fail. So an image is
/// written only of a ready page on which each click was taken.
pub proof fn lemma_shot_run(shot: Shot, oks: Seq<bool>)
    requires
        oks.len() == shot_steps(shot).len(),
    ensures
        run(shot_steps(shot), oks) is Ok <==> readiness_result(
            oks[0],
            oks[1],
            oks[2],
            oks[3],
            oks[4],
        ) is Ok && (forall|k: int|
            5 <= k < oks.len() ==> oks[k] || (#[trigger] shot_steps(shot)[k]) is Settle),
{
    let page = macro_page(shot.url);
    let rest = capture_steps(shot);
    let tail = oks.skip(5);
    lemma_run_in_sequence(readiness(page), rest, oks);
    lemma_readiness_run(page, oks.take(5));
    assert(skips_nothing(rest));
    lemma_run_skipping_nothing(rest, tail, 0);
    assert forall|k: int| 0 <= k < rest.len() implies (rest[k].spec_failure() is None
        <==> rest[k] is Settle) && rest[k] == shot_steps(shot)[k + 5] && tail[k] == oks[k + 5] by {}
    if forall|k: int| 0 <= k < rest.len() ==> tail[k] || (#[trigger] rest[k]).spec_failure() is None {
        assert forall|k: int| 5 <= k < oks.len() implies oks[k] || (#[trigger] shot_steps(
            shot,
        )[k]) is Settle by {
            assert(tail[k - 5] || rest[k - 5].spec_failure() is None);
        }
    }
    if forall|k: int| 5 <= k < oks.len() ==> oks[k] || (#[trigger] shot_steps(shot)[k]) is Settle {
        assert forall|k: int| 0 <= k < rest.len() implies tail[k] || (
        #[trigger] rest[k]).spec_failure() is None by {
            assert(oks[k + 5] || shot_steps(shot)[k + 5] is Settle);
        }
    }
}

/// A capture whose image cannot be written ends with an I/O failure, where
/// everything before the writing went through.
pub proof fn lemma_unwritten_image_is_io_failure(shot: Shot, oks: Seq<bool>)
    requires
        oks.len() == shot_steps(shot).len(),
        forall|k: int| 0 <= k < oks.len() - 1 ==> oks[k],
        !oks[oks.len() - 1],
    ensures
        run(shot_steps(shot), oks) == Err::<(), HarnessError>(HarnessError::Io),
{
    let page = macro_page(shot.url);
    let rest = capture_steps(shot);
    let tail = oks.skip(5);
    lemma_run_in_sequence(readiness(page), rest, oks);
    lemma_readiness_run(page, oks.take(5));
    lemma_all_but_save(rest, tail, 0);
}

/// A script that ends with the writing of a file, run with every step but
/// the last succeeding, ends with an I/O failure.
proof fn lemma_all_but_save(steps: Seq<Step>, oks: Seq<bool>, at: int)
    requires
        0 < steps.len() <= usize::MAX,
        oks.len() == steps.len(),
        0 <= at < steps.len(),
        steps[steps.len() - 1] is Save,
        forall|k: int| 0 <= k < oks.len() - 1 ==> oks[k],
        !oks[oks.len() - 1],
    ensures
        run_from(steps, oks, at) == Err::<(), HarnessError>(HarnessError::Io),
    decreases steps.len() - at,
{
    if at < steps.len() - 1 {
        lemma_all_but_save(steps, oks, at + 1);
    }
}

} // verus!
