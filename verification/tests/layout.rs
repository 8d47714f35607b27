use railroad_harness::error::HarnessError;
use railroad_harness::geometry::{BoxModel, Point, Quad};
use railroad_harness::layout::{
    diagram_placed, dropdown_placed, dropdown_script, legend_script, macro_block_placed,
    placement_script,
};
use railroad_harness::readiness::navigate_to_macro_page;
use railroad_harness::run::{is_well_formed, replay};
use railroad_harness::script::Step;
use railroad_harness::targets::{
    DIAGRAM_CONTAINER, DROPDOWN_CONTAINER, LEGEND, MACRO_BLOCK, MAIN, MODAL_CONTAINER, OPTIONS,
    OPT_LEGEND, RAILROAD_CONTAINER, URL_BITFLAGS, URL_INFO, URL_NAMED, URL_PANIC,
};

fn rect(left: i64, top: i64, right: i64, bottom: i64) -> Quad {
    Quad {
        top_left: Point { x: left, y: top },
        top_right: Point { x: right, y: top },
        bottom_left: Point { x: left, y: bottom },
        bottom_right: Point { x: right, y: bottom },
    }
}

/// An element whose margin reaches `margin` units beyond its content.
fn element(left: i64, top: i64, right: i64, bottom: i64, margin: i64) -> BoxModel {
    BoxModel {
        content: rect(left, top, right, bottom),
        margin: rect(left - margin, top - margin, right + margin, bottom + margin),
    }
}

/// The boxes of a page on which the diagram is drawn above the macro
/// block: main region, macro block, diagram, open options panel.
fn rendered_page() -> (BoxModel, BoxModel, BoxModel, BoxModel) {
    let main = element(200, 0, 1400, 3000, 0);
    let diagram = element(220, 300, 1380, 700, 10);
    let macro_block = element(220, 720, 1380, 900, 10);
    let dropdown = element(1190, 710, 1390, 960, 0);
    (main, macro_block, diagram, dropdown)
}

#[test]
fn placement() {
    for url in [URL_PANIC, URL_BITFLAGS, URL_NAMED] {
        let steps = placement_script(url);
        assert_eq!(steps.len(), 11);
        assert_eq!(steps[..5], navigate_to_macro_page(url)[..]);
        assert_eq!(
            steps[5..],
            [
                Step::Find(MAIN),
                Step::Measure,
                Step::Find(MACRO_BLOCK),
                Step::Measure,
                Step::Find(DIAGRAM_CONTAINER),
                Step::Measure,
            ]
        );
        assert_eq!(replay(&steps, &vec![true; 11]), Ok(()));
        let (main_box, macro_block_box, inline_dia_box, _) = rendered_page();
        assert!(macro_block_box.content.within_bounds_of(&main_box.margin));
        assert!(inline_dia_box.content.within_bounds_of(&main_box.margin));
        assert!(inline_dia_box.content.above(&macro_block_box.margin));
        assert!(inline_dia_box
            .content
            .within_horizontal_bounds_of(&macro_block_box.margin));
        assert!(macro_block_placed(&main_box, &macro_block_box));
        assert!(diagram_placed(&main_box, &macro_block_box, &inline_dia_box));
    }
}

#[test]
fn issue13() {
    for url in [URL_PANIC, URL_INFO] {
        assert_eq!(replay(&placement_script(url), &vec![true; 11]), Ok(()));
        let steps = dropdown_script();
        assert_eq!(
            steps,
            vec![
                Step::Find(OPTIONS),
                Step::Click,
                Step::Find(RAILROAD_CONTAINER),
                Step::Measure,
                Step::Find(DROPDOWN_CONTAINER),
                Step::Measure,
            ]
        );
        assert_eq!(replay(&steps, &vec![true; 6]), Ok(()));
        let (_, _, railroad_box, dropdown_box) = rendered_page();
        assert_eq!(
            railroad_box.margin.most_right(),
            dropdown_box.margin.most_right()
        );
        let most_bottom = railroad_box
            .margin
            .top_right
            .y
            .max(railroad_box.margin.top_left.y)
            .max(railroad_box.margin.bottom_right.y)
            .max(railroad_box.margin.bottom_left.y);
        assert_eq!(most_bottom, dropdown_box.margin.most_top());
        assert_eq!(most_bottom, railroad_box.margin.most_bottom());
        assert!(dropdown_placed(&railroad_box, &dropdown_box));
    }
}

#[test]
fn set_options() {
    let steps = legend_script();
    assert_eq!(steps[..5], navigate_to_macro_page(URL_PANIC)[..]);
    assert_eq!(
        steps[5..],
        [
            Step::Find(LEGEND),
            Step::Find(OPTIONS),
            Step::Click,
            Step::WaitFor(OPT_LEGEND),
            Step::Click,
            Step::WaitGone(LEGEND),
        ]
    );
    assert!(replay(&steps, &vec![true; 11]).is_ok());
    let mut legend_stays = vec![true; 11];
    legend_stays[10] = false;
    assert_eq!(replay(&steps, &legend_stays), Err(HarnessError::Timeout));
    let mut no_legend = vec![true; 11];
    no_legend[5] = false;
    assert_eq!(replay(&steps, &no_legend), Err(HarnessError::Interaction));
}

#[test]
fn executes() {
    let mut steps = navigate_to_macro_page(URL_PANIC);
    steps.push(Step::Find(MODAL_CONTAINER));
    assert_eq!(replay(&steps, &vec![true; 6]), Ok(()));
    assert_eq!(
        replay(&steps, &vec![true, true, true, true, true, false]),
        Err(HarnessError::Interaction)
    );
}

#[test]
fn macro_block_outside_the_main_region_is_misplaced() {
    let (main, _, _, _) = rendered_page();
    assert!(!macro_block_placed(&main, &element(100, 720, 1380, 900, 0)));
    assert!(!macro_block_placed(&main, &element(220, 2900, 1380, 3001, 0)));
    assert!(macro_block_placed(&main, &element(200, 0, 1400, 3000, 50)));
}

#[test]
fn diagram_is_misplaced_below_or_beside_the_macro_block() {
    let (main, macro_block, diagram, _) = rendered_page();
    assert!(diagram_placed(&main, &macro_block, &diagram));
    let below = element(220, 920, 1380, 1200, 10);
    assert!(!diagram_placed(&main, &macro_block, &below));
    let overlapping = element(220, 300, 1380, 711, 10);
    assert!(!diagram_placed(&main, &macro_block, &overlapping));
    let touching = element(220, 300, 1380, 710, 10);
    assert!(diagram_placed(&main, &macro_block, &touching));
    let too_wide = element(205, 300, 1395, 700, 0);
    assert!(!diagram_placed(&main, &macro_block, &too_wide));
    let outside_main = element(220, -20, 1380, 700, 0);
    assert!(!diagram_placed(&main, &macro_block, &outside_main));
}

#[test]
fn dropdown_must_hang_flush_and_right_aligned() {
    let (_, _, diagram, dropdown) = rendered_page();
    assert!(dropdown_placed(&diagram, &dropdown));
    assert!(!dropdown_placed(&diagram, &element(1190, 711, 1390, 960, 0)));
    assert!(!dropdown_placed(&diagram, &element(1190, 709, 1390, 960, 0)));
    assert!(!dropdown_placed(&diagram, &element(1190, 710, 1389, 960, 0)));
    assert!(!dropdown_placed(&diagram, &element(1190, 710, 1380, 960, 0)));
    assert!(dropdown_placed(&diagram, &element(1195, 715, 1385, 955, 5)));
}

#[test]
fn diagram_and_railroad_container_are_one_element() {
    assert_eq!(DIAGRAM_CONTAINER, RAILROAD_CONTAINER);
}

#[test]
fn every_check_script_is_well_formed() {
    assert!(is_well_formed(&placement_script(URL_PANIC)));
    assert!(is_well_formed(&dropdown_script()));
    assert!(is_well_formed(&legend_script()));
}
