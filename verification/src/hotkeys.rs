//! What a hotkey does on each calibration page, what a finished capture
//! yields, and how the four hotkeys are bound.

use crate::bisection::{narrow_spec, seed_spec, Narrow};
use crate::calculations::{
    calculate_counts, calculate_scoped_counts, captured_fov, captured_fov_spec, cm_from_counts,
    cm_from_counts_spec, counts_spec, scoped_counts_spec,
};
use crate::error::{CalibrationError, MathError};
use crate::fixed::{to_count, Fixed};
use crate::models::{AppSettings, CmUpdatePayload, FovUpdatePayload, UserSettings, YawStuff};
use crate::mouse_tracker::{AppState, CalibrationPage, MouseTracker};
use crate::playback::{turn_steps, turn_steps_spec};
use vstd::math::abs;
use vstd::prelude::*;

verus! {

/// What the counts of a finished capture are taken for.
#[derive(Clone, Copy, Debug, PartialEq, Eq, Structural)]
pub enum CaptureUse {
    /// The mouse travel per full turn.
    Cm360,
    /// The field of view of the game.
    Fov,
    /// The first estimate of the yaw.
    YawSeed,
}

/// Why a hotkey does nothing.
#[derive(Clone, Copy, Debug, PartialEq, Eq, Structural)]
pub enum Ignored {
    /// The page that is showing is not one of the calibration pages.
    UnknownPage,
    /// The page has no use for this hotkey.
    Unbound,
    /// There is no hotkey of this index.
    UnknownIndex,
}

/// What is to be done for a hotkey.
#[derive(Clone, Copy, Debug, PartialEq, Eq, Structural)]
pub enum HotkeyAction {
    /// Replay a turn of `counts` counts in `steps` steps.
    Replay { counts: i32, steps: i32, right: bool },
    /// Replay a turn of `counts` counts in `steps` steps, then narrow the yaw
    /// bracket by `narrow`.
    ReplayThenNarrow { counts: i32, steps: i32, right: bool, narrow: Narrow },
    /// Start a capture session.
    StartCapture,
    /// Stop the capture session and take its counts for `purpose`.
    StopCapture { purpose: CaptureUse },
    /// Nothing.
    Ignore { reason: Ignored },
    /// Nothing: the turn to replay has no count.
    Fail { error: MathError },
}

/// What a step of the calibration tells its observers.
#[derive(Clone, Copy, Debug, PartialEq, Eq, Structural)]
pub enum CalibrationEvent {
    CmUpdate(CmUpdatePayload),
    FovUpdate(FovUpdatePayload),
    YawUpdate(YawStuff),
}

/// The replay of a turn, where the turn has a count.
pub open spec fn replay_spec(counts: Result<i32, MathError>, steps: i32) -> HotkeyAction {
    match counts {
        Ok(counts) => HotkeyAction::Replay { counts, steps, right: true },
        Err(error) => HotkeyAction::Fail { error },
    }
}

/// The probe key: stops a running capture for `purpose`, starts one otherwise.
pub open spec fn toggle_spec(tracking: bool, purpose: CaptureUse) -> HotkeyAction {
    if tracking {
        HotkeyAction::StopCapture { purpose }
    } else {
        HotkeyAction::StartCapture
    }
}

/// What hotkey number `index` does in the given state.
///
/// The first replays a full turn on the main page and a scoped turn on the
/// scoped page. The second toggles the capture on the main page, the
/// field-of-view page and the yaw page. The third and fourth, on the yaw
/// page, replay the current estimate's turn to the left and then narrow the
/// bracket down or up.
pub open spec fn hotkey_spec(
    index: usize,
    app_state: AppState,
    params: UserSettings,
    turn_speed: Fixed,
    yaw_params: YawStuff,
) -> HotkeyAction {
    let steps = turn_steps_spec(turn_speed) as i32;
    let page = app_state.current_page;
    if index >= 4 {
        HotkeyAction::Ignore { reason: Ignored::UnknownIndex }
    } else if page is Unknown {
        HotkeyAction::Ignore { reason: Ignored::UnknownPage }
    } else if index == 0 && page is MainSensitivity {
        replay_spec(counts_spec(params.cm360, params.dpi), steps)
    } else if index == 0 && page is ScopedSensitivity {
        replay_spec(
            scoped_counts_spec(params.cm360, params.dpi, params.normal_fov, params.scoped_fov),
            steps,
        )
    } else if index == 1 && page is MainSensitivity {
        toggle_spec(app_state.tracker.tracking, CaptureUse::Cm360)
    } else if index == 1 && page is MeasureFov {
        toggle_spec(app_state.tracker.tracking, CaptureUse::Fov)
    } else if index == 1 && page is MeasureYaw {
        toggle_spec(app_state.tracker.tracking, CaptureUse::YawSeed)
    } else if index == 2 && page is MeasureYaw {
        HotkeyAction::ReplayThenNarrow {
            counts: yaw_params.counts,
            steps,
            right: false,
            narrow: Narrow::Down,
        }
    } else if index == 3 && page is MeasureYaw {
        HotkeyAction::ReplayThenNarrow {
            counts: yaw_params.counts,
            steps,
            right: false,
            narrow: Narrow::Up,
        }
    } else {
        HotkeyAction::Ignore { reason: Ignored::Unbound }
    }
}

/// Decides what hotkey number `index` does: nothing is changed, the result
/// says what is to be done.
pub fn handle_hotkey(
    index: usize,
    app_state: &AppState,
    params: &UserSettings,
    settings: &AppSettings,
    yaw_params: &YawStuff,
) -> (action: HotkeyAction)
    ensures
        action == hotkey_spec(index, *app_state, *params, settings.turn_speed, *yaw_params),
{
    let steps = turn_steps(settings.turn_speed);
    if index >= 4 {
        return HotkeyAction::Ignore { reason: Ignored::UnknownIndex };
    }
    match app_state.current_page {
        CalibrationPage::Unknown => HotkeyAction::Ignore { reason: Ignored::UnknownPage },
        CalibrationPage::MainSensitivity => {
            if index == 0 {
                replay_of(calculate_counts(params.cm360, params.dpi), steps)
            } else if index == 1 {
                toggle(app_state.tracker.tracking, CaptureUse::Cm360)
            } else {
                HotkeyAction::Ignore { reason: Ignored::Unbound }
            }
        },
        CalibrationPage::ScopedSensitivity => {
            if index == 0 {
                replay_of(
                    calculate_scoped_counts(
                        params.cm360,
                        params.dpi,
                        params.normal_fov,
                        params.scoped_fov,
                    ),
                    steps,
                )
            } else {
                HotkeyAction::Ignore { reason: Ignored::Unbound }
            }
        },
        CalibrationPage::MeasureFov => {
            if index == 1 {
                toggle(app_state.tracker.tracking, CaptureUse::Fov)
            } else {
                HotkeyAction::Ignore { reason: Ignored::Unbound }
            }
        },
        CalibrationPage::MeasureYaw => {
            if index == 1 {
                toggle(app_state.tracker.tracking, CaptureUse::YawSeed)
            } else if index == 2 {
                HotkeyAction::ReplayThenNarrow {
                    counts: yaw_params.counts,
                    steps,
                    right: false,
                    narrow: Narrow::Down,
                }
            } else if index == 3 {
                HotkeyAction::ReplayThenNarrow {
                    counts: yaw_params.counts,
                    steps,
                    right: false,
                    narrow: Narrow::Up,
                }
            } else {
                HotkeyAction::Ignore { reason: Ignored::Unbound }
            }
        },
    }
}

fn replay_of(counts: Result<i32, MathError>, steps: i32) -> (action: HotkeyAction)
    ensures
        action == replay_spec(counts, steps),
{
    match counts {
        Ok(counts) => HotkeyAction::Replay { counts, steps, right: true },
        Err(error) => HotkeyAction::Fail { error },
    }
}

fn toggle(tracking: bool, purpose: CaptureUse) -> (action: HotkeyAction)
    ensures
        action == toggle_spec(tracking, purpose),
{
    if tracking {
        HotkeyAction::StopCapture { purpose }
    } else {
        HotkeyAction::StartCapture
    }
}

/// What a stopped capture yields for `purpose`: the event to announce and the
/// yaw calibration after it. The captured distance is the sum without its
/// sign.
pub open spec fn finish_spec(
    purpose: CaptureUse,
    tracker: MouseTracker,
    params: UserSettings,
    yaw_params: YawStuff,
) -> Result<(CalibrationEvent, YawStuff), CalibrationError> {
    if tracker.tracking {
        Err(CalibrationError::StillTracking)
    } else {
        match to_count(abs(tracker.count as int) as int) {
            Err(e) => Err(CalibrationError::Math(e)),
            Ok(observed) => match purpose {
                CaptureUse::Cm360 => match cm_from_counts_spec(observed, params.dpi) {
                    Err(e) => Err(CalibrationError::Math(e)),
                    Ok(cm_per360) => Ok(
                        (CalibrationEvent::CmUpdate(CmUpdatePayload { cm_per360 }), yaw_params),
                    ),
                },
                CaptureUse::Fov => match captured_fov_spec(
                    observed,
                    params.cm360,
                    params.dpi,
                    params.game_sens,
                ) {
                    Err(e) => Err(CalibrationError::Math(e)),
                    Ok(fov16) => Ok(
                        (CalibrationEvent::FovUpdate(FovUpdatePayload { fov16 }), yaw_params),
                    ),
                },
                CaptureUse::YawSeed => match seed_spec(yaw_params, observed) {
                    Err(e) => Err(CalibrationError::Math(e)),
                    Ok(next) => Ok((CalibrationEvent::YawUpdate(next), next)),
                },
            },
        }
    }
}

/// Derives from a stopped capture what `purpose` asks for: the mouse travel
/// per full turn, the field of view, or the seed of the yaw calibration,
/// which alone changes `yaw_params`. A capture that is still running yields
/// nothing, and nothing changes where the value does not exist.
pub fn finish_capture(
    purpose: CaptureUse,
    tracker: &MouseTracker,
    params: &UserSettings,
    yaw_params: &mut YawStuff,
) -> (r: Result<CalibrationEvent, CalibrationError>)
    ensures
        match finish_spec(purpose, *tracker, *params, *old(yaw_params)) {
            Ok((event, next)) => {
                &&& r == Ok::<CalibrationEvent, CalibrationError>(event)
                &&& *final(yaw_params) == next
            },
            Err(e) => {
                &&& r == Err::<CalibrationEvent, CalibrationError>(e)
                &&& *final(yaw_params) == *old(yaw_params)
            },
        },
{
    if tracker.tracking {
        return Err(CalibrationError::StillTracking);
    }
    if tracker.count == i32::MIN {
        return Err(CalibrationError::Math(MathError::Overflow));
    }
    let observed: i32 = if tracker.count < 0 {
        -tracker.count
    } else {
        tracker.count
    };
    match purpose {
        CaptureUse::Cm360 => match cm_from_counts(observed, params.dpi) {
            Err(e) => Err(CalibrationError::Math(e)),
            Ok(cm_per360) => Ok(CalibrationEvent::CmUpdate(CmUpdatePayload { cm_per360 })),
        },
        CaptureUse::Fov => match captured_fov(
            observed,
            params.cm360,
            params.dpi,
            params.game_sens,
        ) {
            Err(e) => Err(CalibrationError::Math(e)),
            Ok(fov16) => Ok(CalibrationEvent::FovUpdate(FovUpdatePayload { fov16 })),
        },
        CaptureUse::YawSeed => match yaw_params.seed(observed) {
            Err(e) => Err(CalibrationError::Math(e)),
            Ok(()) => Ok(CalibrationEvent::YawUpdate(*yaw_params)),
        },
    }
}

/// Narrows the yaw bracket by one step, after the turn of the estimate was
/// replayed, and gives the new calibration to announce. Nothing changes
/// where the step has no result.
pub fn finish_narrow(narrow: Narrow, yaw_params: &mut YawStuff) -> (r: Result<
    CalibrationEvent,
    MathError,
>)
    ensures
        match narrow_spec(*old(yaw_params), narrow) {
            Ok(next) => {
                &&& r == Ok::<CalibrationEvent, MathError>(CalibrationEvent::YawUpdate(next))
                &&& *final(yaw_params) == next
            },
            Err(e) => {
                &&& r == Err::<CalibrationEvent, MathError>(e)
                &&& *final(yaw_params) == *old(yaw_params)
            },
        },
        old(yaw_params).bracketed() ==> final(yaw_params).bracketed(),
{
    match yaw_params.narrow(narrow) {
        Err(e) => Err(e),
        Ok(()) => Ok(CalibrationEvent::YawUpdate(*yaw_params)),
    }
}

/// One request to the system's table of global shortcuts.
#[derive(Debug, PartialEq, Eq)]
pub enum ShortcutCommand {
    /// Drop every binding.
    UnregisterAll,
    /// Bind `key` to hotkey number `index`.
    Register { index: usize, key: String },
}

impl ShortcutCommand {
    /// The command binds `key` to hotkey number `index`.
    pub open spec fn binds(self, index: int, key: Seq<char>) -> bool {
        self matches ShortcutCommand::Register { index: i, key: k } && i == index && k@ == key
    }
}

/// The requests bind `keys` anew: the first drops every earlier binding, and
/// the one after it binds the first key to hotkey number 0, and so on.
pub open spec fn rebinds(commands: Seq<ShortcutCommand>, keys: Seq<String>) -> bool {
    &&& commands.len() == keys.len() + 1
    &&& commands[0] is UnregisterAll
    &&& forall|i: int| 0 <= i < keys.len() ==> (#[trigger] commands[i + 1]).binds(i, keys[i]@)
}

/// The requests that bind the hotkeys anew: first every earlier binding is
/// dropped, then each hotkey is bound to its place in the list.
pub fn setup_global_shortcuts(settings: &AppSettings) -> (commands: Vec<ShortcutCommand>)
    ensures
        rebinds(commands@, settings.hotkeys@),
{
    let mut commands: Vec<ShortcutCommand> = Vec::new();
    commands.push(ShortcutCommand::UnregisterAll);
    let mut index: usize = 0;
    while index < settings.hotkeys.len()
        invariant
            index <= settings.hotkeys@.len(),
            commands@.len() == index + 1,
            commands@[0] is UnregisterAll,
            forall|i: int|
                0 <= i < index ==> (#[trigger] commands@[i + 1]).binds(i, settings.hotkeys@[i]@),
        decreases settings.hotkeys@.len() - index,
    {
        let key = settings.hotkeys[index].clone();
        commands.push(ShortcutCommand::Register { index, key });
        index = index + 1;
    }
    commands
}

} // verus!
