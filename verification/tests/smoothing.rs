use saddle_world_lighting::{smoothing_window, SmoothingWindow, StepMode};

#[test]
fn idle_and_continuous_steps_use_the_continuous_window() {
    for scrubs in [false, true] {
        assert_eq!(smoothing_window(StepMode::Idle, scrubs), SmoothingWindow::Continuous);
        assert_eq!(smoothing_window(StepMode::Continuous, scrubs), SmoothingWindow::Continuous);
    }
}

#[test]
fn clock_jumps_use_the_jump_window() {
    assert_eq!(smoothing_window(StepMode::AdvanceJump, false), SmoothingWindow::Jump);
    assert_eq!(smoothing_window(StepMode::AdvanceJump, true), SmoothingWindow::Jump);
}

#[test]
fn scrubs_are_immediate_unless_scrub_smoothing_is_on() {
    assert_eq!(smoothing_window(StepMode::Scrub, false), SmoothingWindow::Immediate);
    assert_eq!(smoothing_window(StepMode::Scrub, true), SmoothingWindow::Jump);
}
