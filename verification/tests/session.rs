use railroad_harness::error::HarnessError;
use railroad_harness::session::{
    launch_options, Acquire, LaunchOptions, Release, Stage, WINDOW_HEIGHT, WINDOW_WIDTH,
};

#[test]
fn browser_is_launched_with_a_visible_window_of_fixed_size() {
    assert_eq!(
        launch_options(),
        LaunchOptions { window_width: 1600, window_height: 1400, headless: false }
    );
    assert_eq!((WINDOW_WIDTH, WINDOW_HEIGHT), (1600, 1400));
}

#[test]
fn opening_unpacks_first_and_launches_second() {
    assert_eq!(Stage::Closed.next(), Some(Acquire::ExtractBundle));
    assert_eq!(Stage::Extracted.next(), Some(Acquire::LaunchBrowser));
    assert_eq!(Stage::Live.next(), None);
    assert_eq!(Stage::Closed.acquired(true), Ok(Stage::Extracted));
    assert_eq!(Stage::Extracted.acquired(true), Ok(Stage::Live));
    assert_eq!(Stage::Live.acquired(true), Ok(Stage::Live));
    assert_eq!(Stage::Live.acquired(false), Ok(Stage::Live));
}

#[test]
fn failed_opening_names_what_failed() {
    assert_eq!(Stage::Closed.acquired(false), Err(HarnessError::Io));
    assert_eq!(Stage::Extracted.acquired(false), Err(HarnessError::Launch));
}

#[test]
fn teardown_stops_the_browser_before_it_removes_the_bundle() {
    assert_eq!(Stage::Closed.teardown(), vec![]);
    assert_eq!(Stage::Extracted.teardown(), vec![Release::RemoveBundle]);
    assert_eq!(
        Stage::Live.teardown(),
        vec![Release::StopBrowser, Release::RemoveBundle]
    );
}

#[test]
fn session_opened_step_by_step_ends_live() {
    let mut stage = Stage::Closed;
    let mut acquired = Vec::new();
    while let Some(step) = stage.next() {
        acquired.push(step);
        stage = stage.acquired(true).unwrap();
    }
    assert_eq!(stage, Stage::Live);
    assert_eq!(acquired, vec![Acquire::ExtractBundle, Acquire::LaunchBrowser]);
}
