use railroad_harness::capture::{screenshots, shot_script, Interaction, Shot, SETTLE_MILLIS};
use railroad_harness::error::HarnessError;
use railroad_harness::readiness::navigate_to_macro_page;
use railroad_harness::run::{is_well_formed, replay};
use railroad_harness::script::Step;
use railroad_harness::targets::{OPTIONS, OPT_FULLSCREEN, URL_INFO, URL_NAMED, URL_PANIC};

#[test]
fn screenshot_run_takes_its_six_captures_in_order() {
    let shots = screenshots();
    assert_eq!(
        shots,
        vec![
            Shot { url: URL_PANIC, interaction: Interaction::Untouched, file_name: "std_panic.png" },
            Shot { url: URL_NAMED, interaction: Interaction::Untouched, file_name: "nom_named_attr.png" },
            Shot { url: URL_PANIC, interaction: Interaction::Fullscreen, file_name: "std_panic_fs.png" },
            Shot { url: URL_NAMED, interaction: Interaction::Fullscreen, file_name: "nom_named_attr_fs.png" },
            Shot { url: URL_PANIC, interaction: Interaction::Options, file_name: "std_panic_options.png" },
            Shot { url: URL_INFO, interaction: Interaction::Options, file_name: "std_info_options.png" },
        ]
    );
}

#[test]
fn untouched_page_is_captured_once_it_is_ready() {
    let shot = Shot { url: URL_PANIC, interaction: Interaction::Untouched, file_name: "a.png" };
    let steps = shot_script(&shot);
    assert_eq!(steps[..5], navigate_to_macro_page(URL_PANIC)[..]);
    assert_eq!(steps[5..], [Step::Capture, Step::Save("a.png")]);
}

#[test]
fn fullscreen_capture_opens_options_clicks_and_settles() {
    let shot = Shot { url: URL_NAMED, interaction: Interaction::Fullscreen, file_name: "b.png" };
    let steps = shot_script(&shot);
    assert_eq!(SETTLE_MILLIS, 2000);
    assert_eq!(steps[..5], navigate_to_macro_page(URL_NAMED)[..]);
    assert_eq!(
        steps[5..],
        [
            Step::Find(OPTIONS),
            Step::Click,
            Step::WaitFor(OPT_FULLSCREEN),
            Step::Click,
            Step::Settle(2000),
            Step::Capture,
            Step::Save("b.png"),
        ]
    );
}

#[test]
fn options_capture_opens_options_and_captures_at_once() {
    let shot = Shot { url: URL_INFO, interaction: Interaction::Options, file_name: "c.png" };
    let steps = shot_script(&shot);
    assert_eq!(steps[..5], navigate_to_macro_page(URL_INFO)[..]);
    assert_eq!(
        steps[5..],
        [Step::Find(OPTIONS), Step::Click, Step::Capture, Step::Save("c.png")]
    );
}

#[test]
fn capture_fails_with_the_failure_of_the_step_that_failed() {
    let shot = Shot { url: URL_PANIC, interaction: Interaction::Fullscreen, file_name: "d.png" };
    let steps = shot_script(&shot);
    assert_eq!(steps.len(), 12);
    assert_eq!(replay(&steps, &vec![true; 12]), Ok(()));
    let failing = |at: usize| {
        let mut oks = vec![true; 12];
        oks[at] = false;
        replay(&steps, &oks)
    };
    assert_eq!(failing(4), Err(HarnessError::Timeout));
    assert_eq!(failing(5), Err(HarnessError::Interaction));
    assert_eq!(failing(6), Err(HarnessError::Interaction));
    assert_eq!(failing(7), Err(HarnessError::Timeout));
    assert_eq!(failing(8), Err(HarnessError::Interaction));
    assert_eq!(failing(9), Ok(()));
    assert_eq!(failing(10), Err(HarnessError::Interaction));
    assert_eq!(failing(11), Err(HarnessError::Io));
}

#[test]
fn every_planned_capture_ends_by_writing_its_file() {
    for shot in screenshots() {
        let steps = shot_script(&shot);
        assert_eq!(steps[steps.len() - 2], Step::Capture);
        assert_eq!(steps[steps.len() - 1], Step::Save(shot.file_name));
        assert_eq!(steps[0], Step::AwaitTab);
        assert_eq!(replay(&steps, &vec![true; steps.len()]), Ok(()));
    }
}

#[test]
fn every_planned_capture_is_well_formed() {
    for shot in screenshots() {
        assert!(is_well_formed(&shot_script(&shot)));
    }
}
