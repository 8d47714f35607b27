//! The layout checks: where the extension's elements have to stand on a
//! page, decided from their measured box models, and the scripts that take
//! the measurements.
//!
//! The checks compare geometry instead of pixels. Each one is a relation
//! between the regions of a few elements; the caller measures the elements
//! in the order the script gives and hands the boxes over.

use crate::error::HarnessError;
use crate::geometry::{BoxModel, Point};
use crate::readiness::{
    lemma_readiness_run, lemma_readiness_well_formed, readiness, readiness_result,
    readiness_script,
};
use crate::run::{
    and_then, lemma_run_in_sequence, lemma_run_skipping_nothing, lemma_well_formed_in_sequence, run,
    run_from, stands_alone, well_formed,
};
use crate::script::Step;
use crate::targets::{
    macro_page, PageTarget, DIAGRAM_CONTAINER, DROPDOWN_CONTAINER, LEGEND, MACRO_BLOCK, MAIN,
    OPTIONS, OPT_LEGEND, RAILROAD_CONTAINER, URL_PANIC,
};
use vstd::prelude::*;

verus! {

/// The block with the macro's declaration stands inside the main content
/// region: its content lies within the margin bounds of the main region.
pub open spec fn macro_block_in_place(main: BoxModel, macro_block: BoxModel) -> bool {
    macro_block.content.is_within_bounds_of(main.margin)
}

/// The diagram stands where it belongs: its content lies within the margin
/// bounds of the main region, above the margin of the macro block, and
/// within the horizontal extent of that margin.
pub open spec fn diagram_in_place(main: BoxModel, macro_block: BoxModel, diagram: BoxModel) -> bool {
    &&& diagram.content.is_within_bounds_of(main.margin)
    &&& diagram.content.is_above(macro_block.margin)
    &&& diagram.content.is_within_horizontal_bounds_of(macro_block.margin)
}

/// The open options panel hangs flush under the diagram: the right edges
/// of the two margins coincide, and the top edge of the panel's margin is
/// the lowest edge of the diagram's margin.
pub open spec fn dropdown_in_place(diagram: BoxModel, dropdown: BoxModel) -> bool {
    &&& dropdown.margin.shares_right_edge_with(diagram.margin)
    &&& diagram.margin.is_flush_above(dropdown.margin)
}

/// Whether the macro block stands inside the main content region.
pub fn macro_block_placed(main: &BoxModel, macro_block: &BoxModel) -> (r: bool)
    ensures
        r == macro_block_in_place(*main, *macro_block),
{
    macro_block.content.within_bounds_of(&main.margin)
}

/// Whether the diagram stands inside the main content region, above the
/// macro block and within its horizontal extent.
pub fn diagram_placed(main: &BoxModel, macro_block: &BoxModel, diagram: &BoxModel) -> (r: bool)
    ensures
        r == diagram_in_place(*main, *macro_block, *diagram),
{
    diagram.content.within_bounds_of(&main.margin) && diagram.content.above(&macro_block.margin)
        && diagram.content.within_horizontal_bounds_of(&macro_block.margin)
}

/// Whether the open options panel hangs flush under the diagram, right
/// edge on right edge.
pub fn dropdown_placed(diagram: &BoxModel, dropdown: &BoxModel) -> (r: bool)
    ensures
        r == dropdown_in_place(*diagram, *dropdown),
{
    dropdown.margin.right_edge_matches(&diagram.margin) && diagram.margin.flush_above(
        &dropdown.margin,
    )
}

/// What a diagram in place means corner by corner: each corner of its
/// content lies between the outermost edges of the main region's margin,
/// none of them lies lower than any corner of the macro block's margin, and
/// each lies between the left and the right edge of that margin.
pub proof fn lemma_diagram_in_place_by_corners(
    main: BoxModel,
    macro_block: BoxModel,
    diagram: BoxModel,
)
    ensures
        diagram_in_place(main, macro_block, diagram) <==> (forall|p: Point|
            diagram.content.has_corner(p) ==> {
                &&& main.margin.bounds(p)
                &&& macro_block.margin.left_edge() <= p.x <= macro_block.margin.right_edge()
                &&& forall|q: Point| macro_block.margin.has_corner(q) ==> p.y <= q.y
            }),
{
    let d = diagram.content;
    let m = macro_block.margin;
    d.lemma_edges();
    m.lemma_edges();
    d.lemma_within_bounds_by_corners(main.margin);
    d.lemma_above_by_corners(m);
    if forall|p: Point|
        d.has_corner(p) ==> {
            &&& main.margin.bounds(p)
            &&& m.left_edge() <= p.x <= m.right_edge()
            &&& forall|q: Point| m.has_corner(q) ==> p.y <= q.y
        } {
        assert(d.has_corner(d.top_left) && d.has_corner(d.top_right) && d.has_corner(d.bottom_left)
            && d.has_corner(d.bottom_right));
        assert(d.is_within_horizontal_bounds_of(m));
        assert forall|p: Point, q: Point| d.has_corner(p) && m.has_corner(q) implies p.y
            <= q.y by {}
    }
}

/// The measurements of the placement check, in the order in which the
/// boxes are handed to it: main region, macro block, diagram.
pub open spec fn placement_probes() -> Seq<Step<'static>> {
    seq![
        Step::Find(MAIN),
        Step::Measure,
        Step::Find(MACRO_BLOCK),
        Step::Measure,
        Step::Find(DIAGRAM_CONTAINER),
        Step::Measure,
    ]
}

/// The steps that open the options panel and measure the diagram and the
/// panel, in that order.
pub open spec fn dropdown_probes() -> Seq<Step<'static>> {
    seq![
        Step::Find(OPTIONS),
        Step::Click,
        Step::Find(RAILROAD_CONTAINER),
        Step::Measure,
        Step::Find(DROPDOWN_CONTAINER),
        Step::Measure,
    ]
}

/// The steps of the legend check on a ready page: the legend is there, the
/// options are opened, the legend entry is clicked, and the legend goes.
pub open spec fn legend_probes() -> Seq<Step<'static>> {
    seq![
        Step::Find(LEGEND),
        Step::Find(OPTIONS),
        Step::Click,
        Step::WaitFor(OPT_LEGEND),
        Step::Click,
        Step::WaitGone(LEGEND),
    ]
}

/// The steps of each check are well formed and can follow the readiness
/// script: every click and every measurement has the lookup of its element
/// directly before it.
pub proof fn lemma_probes_well_formed()
    ensures
        well_formed(placement_probes()),
        stands_alone(placement_probes()),
        well_formed(dropdown_probes()),
        stands_alone(dropdown_probes()),
        well_formed(legend_probes()),
        stands_alone(legend_probes()),
{
    let p = placement_probes();
    assert(p[0].spec_locates() && p[2].spec_locates() && p[4].spec_locates());
    let d = dropdown_probes();
    assert(d[0].spec_locates() && d[2].spec_locates() && d[4].spec_locates());
    let l = legend_probes();
    assert(l[1].spec_locates() && l[3].spec_locates());
}

/// The script of the placement check of the macro page at `url`: make the
/// page ready, then measure the main region, the macro block and the
/// diagram.
pub fn placement_script<'a>(url: &'a str) -> (r: Vec<Step<'a>>)
    ensures
        r@ == readiness(macro_page(url)) + placement_probes(),
        well_formed(r@),
{
    proof {
        lemma_probes_well_formed();
        lemma_readiness_well_formed(macro_page(url));
        lemma_well_formed_in_sequence(readiness(macro_page(url)), placement_probes());
    }
    let mut steps = readiness_script(PageTarget::macro_page(url));
    steps.push(Step::Find(MAIN));
    steps.push(Step::Measure);
    steps.push(Step::Find(MACRO_BLOCK));
    steps.push(Step::Measure);
    steps.push(Step::Find(DIAGRAM_CONTAINER));
    steps.push(Step::Measure);
    steps
}

/// The script that follows the placement check on the same page: open the
/// options panel, then measure the diagram and the panel.
pub fn dropdown_script() -> (r: Vec<Step<'static>>)
    ensures
        r@ == dropdown_probes(),
        well_formed(r@),
{
    proof {
        lemma_probes_well_formed();
    }
    let mut steps: Vec<Step<'static>> = Vec::new();
    steps.push(Step::Find(OPTIONS));
    steps.push(Step::Click);
    steps.push(Step::Find(RAILROAD_CONTAINER));
    steps.push(Step::Measure);
    steps.push(Step::Find(DROPDOWN_CONTAINER));
    steps.push(Step::Measure);
    steps
}

/// The script of the legend check: make the reference page ready, see that
/// the legend is there, open the options, click the legend entry, and wait
/// until the legend is gone.
pub fn legend_script() -> (r: Vec<Step<'static>>)
    ensures
        r@ == readiness(macro_page(URL_PANIC)) + legend_probes(),
        well_formed(r@),
{
    proof {
        lemma_probes_well_formed();
        lemma_readiness_well_formed(macro_page(URL_PANIC));
        lemma_well_formed_in_sequence(readiness(macro_page(URL_PANIC)), legend_probes());
    }
    let mut steps = readiness_script(PageTarget::macro_page(URL_PANIC));
    steps.push(Step::Find(LEGEND));
    steps.push(Step::Find(OPTIONS));
    steps.push(Step::Click);
    steps.push(Step::WaitFor(OPT_LEGEND));
    steps.push(Step::Click);
    steps.push(Step::WaitGone(LEGEND));
    steps
}

/// How the legend check ends, stated over what the browser reports after
/// the page is ready: whether the legend was there, whether the options
/// control was found and took its click, whether the legend entry appeared
/// and took its click, and whether the legend then went away.
pub open spec fn legend_result(
    legend: bool,
    options: bool,
    opened: bool,
    entry: bool,
    switched: bool,
    gone: bool,
) -> Result<(), HarnessError> {
    if !legend {
        Err(HarnessError::Interaction)
    } else if !options || !opened {
        Err(HarnessError::Interaction)
    } else if !entry {
        Err(HarnessError::Timeout)
    } else if !switched {
        Err(HarnessError::Interaction)
    } else if !gone {
        Err(HarnessError::Timeout)
    } else {
        Ok(())
    }
}

/// On a ready page the six steps of the legend check end as
/// `legend_result` says of their outcomes.
proof fn lemma_legend_probes_run(oks: Seq<bool>)
    requires
        oks.len() == 6,
    ensures
        run(legend_probes(), oks) == legend_result(oks[0], oks[1], oks[2], oks[3], oks[4], oks[5]),
{
    let probes = legend_probes();
    let timeout = Err::<(), HarnessError>(HarnessError::Timeout);
    let refused = Err::<(), HarnessError>(HarnessError::Interaction);
    assert(run_from(probes, oks, 5) == if oks[5] {
        Ok(())
    } else {
        timeout
    });
    assert(run_from(probes, oks, 4) == if oks[4] {
        run_from(probes, oks, 5)
    } else {
        refused
    });
    assert(run_from(probes, oks, 3) == if oks[3] {
        run_from(probes, oks, 4)
    } else {
        timeout
    });
    assert(run_from(probes, oks, 2) == if oks[2] {
        run_from(probes, oks, 3)
    } else {
        refused
    });
    assert(run_from(probes, oks, 1) == if oks[1] {
        run_from(probes, oks, 2)
    } else {
        refused
    });
    assert(run_from(probes, oks, 0) == if oks[0] {
        run_from(probes, oks, 1)
    } else {
        refused
    });
}

/// A run of the legend check ends as the readiness protocol ends and then,
/// on a ready page, as `legend_result` says of the outcomes of the six
/// steps that follow.
pub proof fn lemma_legend_run(oks: Seq<bool>)
    requires
        oks.len() == 11,
    ensures
        run(readiness(macro_page(URL_PANIC)) + legend_probes(), oks) == and_then(
            readiness_result(oks[0], oks[1], oks[2], oks[3], oks[4]),
            legend_result(oks[5], oks[6], oks[7], oks[8], oks[9], oks[10]),
        ),
{
    let page = macro_page(URL_PANIC);
    lemma_run_in_sequence(readiness(page), legend_probes(), oks);
    lemma_readiness_run(page, oks.take(5));
    lemma_legend_probes_run(oks.skip(5));
}

/// The legend check passes only where the legend was seen before the
/// legend entry was clicked and was seen to be gone after: a run that
/// finishes has found the legend, has clicked the entry, and has then
/// waited the legend out.
pub proof fn lemma_legend_toggles(oks: Seq<bool>)
    requires
        oks.len() == 11,
        run(readiness(macro_page(URL_PANIC)) + legend_probes(), oks) is Ok,
    ensures
        oks[5] && oks[9] && oks[10],
{
    lemma_legend_run(oks);
}

/// A run of the placement script finishes exactly where the page becomes
/// ready and each of the three elements is found and measured.
pub proof fn lemma_placement_run(url: &str, oks: Seq<bool>)
    requires
        oks.len() == 11,
    ensures
        run(readiness(macro_page(url)) + placement_probes(), oks) is Ok <==> readiness_result(
            oks[0],
            oks[1],
            oks[2],
            oks[3],
            oks[4],
        ) is Ok && (forall|k: int| 5 <= k < 11 ==> oks[k]),
{
    let page = macro_page(url);
    let probes = placement_probes();
    let tail = oks.skip(5);
    lemma_run_in_sequence(readiness(page), probes, oks);
    lemma_readiness_run(page, oks.take(5));
    lemma_run_skipping_nothing(probes, tail, 0);
    if forall|k: int| 0 <= k < 6 ==> tail[k] {
        assert forall|k: int| 5 <= k < 11 implies oks[k] by {
            assert(tail[k - 5]);
        }
    }
    if forall|k: int| 5 <= k < 11 ==> oks[k] {
        assert forall|k: int| 0 <= k < 6 implies tail[k] by {
            assert(oks[k + 5]);
        }
    }
}

} // verus!
