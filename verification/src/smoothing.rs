use vstd::prelude::*;

verus! {

/// How the clock moved on the last step, as the time source reports it.
#[derive(Clone, Copy, Debug, PartialEq, Eq, Structural)]
pub enum StepMode {
    /// The clock did not move.
    Idle,
    /// The clock advanced by ordinary frame time.
    Continuous,
    /// The clock was dragged to another hour (scrubbing).
    Scrub,
    /// The clock jumped ahead by a fixed amount.
    AdvanceJump,
}

/// Which smoothing time constant a lighting update uses.
#[derive(Clone, Copy, Debug, PartialEq, Eq, Structural)]
pub enum SmoothingWindow {
    /// The continuous smoothing time (`SmoothingConfig::continuous_seconds`).
    Continuous,
    /// The jump smoothing time (`SmoothingConfig::jump_seconds`).
    Jump,
    /// No smoothing: the target lighting is taken as it is.
    Immediate,
}

/// The window that a step of the given mode is smoothed with.
///
/// Idle and continuous steps use the continuous window; clock jumps use the
/// jump window; a scrub uses the jump window only where scrubs are smoothed,
/// and is otherwise applied at once.
pub open spec fn window_for(mode: StepMode, smooth_scrubs: bool) -> SmoothingWindow {
    match mode {
        StepMode::Idle => SmoothingWindow::Continuous,
        StepMode::Continuous => SmoothingWindow::Continuous,
        StepMode::Scrub => if smooth_scrubs {
            SmoothingWindow::Jump
        } else {
            SmoothingWindow::Immediate
        },
        StepMode::AdvanceJump => SmoothingWindow::Jump,
    }
}

/// Chooses the smoothing window for a lighting update after a step of
/// `mode`, given whether scrubs are smoothed.
pub fn smoothing_window(mode: StepMode, smooth_scrubs: bool) -> (window: SmoothingWindow)
    ensures
        window == window_for(mode, smooth_scrubs),
{
    match mode {
        StepMode::Idle => SmoothingWindow::Continuous,
        StepMode::Continuous => SmoothingWindow::Continuous,
        StepMode::Scrub => {
            if smooth_scrubs {
                SmoothingWindow::Jump
            } else {
                SmoothingWindow::Immediate
            }
        },
        StepMode::AdvanceJump => SmoothingWindow::Jump,
    }
}

/// A scrub is applied without smoothing unless scrub smoothing is switched
/// on, and the scrub-smoothing switch changes the window of no other step.
pub proof fn scrub_switch_affects_only_scrubs(mode: StepMode)
    ensures
        window_for(StepMode::Scrub, false) == SmoothingWindow::Immediate,
        window_for(StepMode::Scrub, true) == SmoothingWindow::Jump,
        mode != StepMode::Scrub ==> window_for(mode, false) == window_for(mode, true),
        window_for(mode, false) == SmoothingWindow::Immediate <==> mode == StepMode::Scrub,
{
}

} // verus!
