//! The commands of the user interface, each on the state it reads or changes.

use crate::bisection::bracket_spec;
use crate::calculations::{
    calculate_cm, calculate_sens, convert_sensitivity, convert_spec, turn_quotient, FovAngle,
};
use crate::error::{MathError, SettingsError};
use crate::fixed::{Fixed, SCALE};
use crate::hotkeys::{rebinds, setup_global_shortcuts, ShortcutCommand};
use crate::models::{AppSettings, GameYaw, UserSettings, YawStuff};
use crate::mouse_tracker::{page_named, AppState, CalibrationPage};
use vstd::prelude::*;

verus! {

/// The new value where one is given, the old one otherwise.
pub open spec fn or_kept<T>(given: Option<T>, kept: T) -> T {
    match given {
        Some(value) => value,
        None => kept,
    }
}

/// What stands against new settings, if anything: a turn speed that is not
/// positive, or a list of other than four hotkeys.
pub open spec fn refusal(turn_speed: Option<Fixed>, hotkeys: Option<Vec<String>>) -> Option<
    SettingsError,
> {
    if turn_speed matches Some(speed) && speed.raw <= 0 {
        Some(SettingsError::TurnSpeed)
    } else if hotkeys matches Some(keys) && keys@.len() != 4 {
        Some(SettingsError::HotkeyCount)
    } else {
        None
    }
}

/// Changes the turn speed, the hotkeys, or both, and gives the requests that
/// bind the hotkeys anew. A turn speed that is not positive and a list of
/// other than four hotkeys are refused, and then nothing changes.
pub fn set_app_settings(
    turn_speed: Option<Fixed>,
    hotkeys: Option<Vec<String>>,
    state: &mut AppSettings,
) -> (r: Result<Vec<ShortcutCommand>, SettingsError>)
    ensures
        match r {
            Ok(commands) => {
                &&& refusal(turn_speed, hotkeys) is None
                &&& final(state).turn_speed == or_kept(turn_speed, old(state).turn_speed)
                &&& final(state).hotkeys@ == (match hotkeys {
                    Some(keys) => keys@,
                    None => old(state).hotkeys@,
                })
                &&& rebinds(commands@, final(state).hotkeys@)
            },
            Err(e) => refusal(turn_speed, hotkeys) == Some(e) && *final(state) == *old(state),
        },
        old(state).wf() ==> final(state).wf(),
{
    if let Some(speed) = turn_speed {
        if speed.raw <= 0 {
            return Err(SettingsError::TurnSpeed);
        }
    }
    if let Some(keys) = &hotkeys {
        if keys.len() != 4 {
            return Err(SettingsError::HotkeyCount);
        }
    }
    if let Some(speed) = turn_speed {
        state.turn_speed = speed;
    }
    if let Some(keys) = hotkeys {
        state.hotkeys = keys;
    }
    Ok(setup_global_shortcuts(state))
}

/// The application settings.
pub fn get_app_settings(state: &AppSettings) -> (r: AppSettings)
    ensures
        r@ == state@,
        r.hotkeys@ == state.hotkeys@,
{
    state.clone()
}

/// Sets the sensitivity of the yaw calibration, where one is given, and puts
/// the estimate at `inc / sens` with limits a tenth below and above it.
/// Returns the new calibration; nothing changes where the estimate has no
/// value.
pub fn set_yaw_values(sens: Option<Fixed>, state: &mut YawStuff) -> (r: Result<YawStuff, MathError>)
    ensures
        match bracket_spec(or_kept(sens, old(state).sens), old(state).counts, old(state).inc) {
            Ok(next) => r == Ok::<YawStuff, MathError>(next) && *final(state) == next,
            Err(e) => r == Err::<YawStuff, MathError>(e) && *final(state) == *old(state),
        },
{
    let sens = match sens {
        Some(sens) => sens,
        None => state.sens,
    };
    let counts = state.counts;
    let inc = state.inc;
    match state.set_bracket(sens, counts, inc) {
        Err(e) => Err(e),
        Ok(()) => Ok(*state),
    }
}

/// The yaw calibration.
pub fn get_yaw_values(state: &YawStuff) -> (r: YawStuff)
    ensures
        r == *state,
{
    *state
}

/// Appends a game to the saved ones, under `name` and with the yaw given or,
/// without one, the current estimate. What was saved before stays as it is.
pub fn save_game_yaw(name: String, yaw: Option<Fixed>, state: &YawStuff, games: &mut Vec<GameYaw>)
    ensures
        final(games)@ == old(games)@.push(GameYaw { name, yaw: or_kept(yaw, state.yaw) }),
{
    let yaw = match yaw {
        Some(yaw) => yaw,
        None => state.yaw,
    };
    games.push(GameYaw { name, yaw });
}

/// Changes the user settings that are given; the others stay as they are.
pub fn set_user_settings(
    cm360: Option<Fixed>,
    dpi: Option<i32>,
    normal_fov: Option<FovAngle>,
    scoped_fov: Option<FovAngle>,
    game_sens: Option<Fixed>,
    game_fov: Option<Fixed>,
    state: &mut UserSettings,
)
    ensures
        *final(state) == (UserSettings {
            cm360: or_kept(cm360, old(state).cm360),
            dpi: or_kept(dpi, old(state).dpi),
            normal_fov: or_kept(normal_fov, old(state).normal_fov),
            scoped_fov: or_kept(scoped_fov, old(state).scoped_fov),
            game_sens: or_kept(game_sens, old(state).game_sens),
            game_fov: or_kept(game_fov, old(state).game_fov),
        }),
{
    if let Some(value) = cm360 {
        state.cm360 = value;
    }
    if let Some(value) = dpi {
        state.dpi = value;
    }
    if let Some(value) = normal_fov {
        state.normal_fov = value;
    }
    if let Some(value) = scoped_fov {
        state.scoped_fov = value;
    }
    if let Some(value) = game_sens {
        state.game_sens = value;
    }
    if let Some(value) = game_fov {
        state.game_fov = value;
    }
}

/// The user settings.
pub fn get_initial_values(state: &UserSettings) -> (r: UserSettings)
    ensures
        r == *state,
{
    *state
}

/// Shows the page that goes by `page`; the capture session is not touched.
pub fn set_current_page(page: String, state: &mut AppState)
    ensures
        *final(state) == (AppState {
            current_page: page_named(page@),
            tracker: old(state).tracker,
        }),
{
    state.current_page = CalibrationPage::from_name(&page);
}

/// How a game turns pointer counts into degrees.
#[derive(Clone, Copy, Debug, PartialEq, Eq, Structural)]
pub enum YawMode {
    /// The number given for the game is the mouse travel per full turn itself.
    RawCounts,
    /// The game turns this many degrees per count and unit of sensitivity.
    YawScaled(Fixed),
}

impl YawMode {
    /// The yaw the formulas take: 360 stands for the raw-counts mode.
    pub open spec fn angle(self) -> Fixed {
        match self {
            YawMode::RawCounts => Fixed { raw: 360_000_000_000 },
            YawMode::YawScaled(yaw) => yaw,
        }
    }

    /// The mode that a yaw number stands for: 360 is the raw-counts mode.
    pub fn from_yaw(yaw: Fixed) -> (r: YawMode)
        ensures
            r == (if yaw.raw == 360 * SCALE {
                YawMode::RawCounts
            } else {
                YawMode::YawScaled(yaw)
            }),
            r.angle() == yaw,
    {
        if yaw.raw == 360_000_000_000 {
            YawMode::RawCounts
        } else {
            YawMode::YawScaled(yaw)
        }
    }

    /// The yaw the formulas take.
    pub fn degrees(&self) -> (r: Fixed)
        ensures
            r == self.angle(),
    {
        match self {
            YawMode::RawCounts => Fixed { raw: 360_000_000_000 },
            YawMode::YawScaled(yaw) => *yaw,
        }
    }
}

/// The sensitivity in the second game that matches `sens` in the first.
///
/// Where the second game is in raw-counts mode the result is the mouse
/// travel per full turn in the first; where only the first is, `sens` is that
/// travel and the result the sensitivity in the second.
pub open spec fn convert_sens_spec(
    dpi: i32,
    sens: Fixed,
    yaw1: YawMode,
    new_dpi: i32,
    yaw2: YawMode,
) -> Result<Fixed, MathError> {
    if yaw2 is RawCounts {
        turn_quotient(sens, yaw1.angle(), dpi)
    } else if yaw1 is RawCounts {
        turn_quotient(sens, yaw2.angle(), new_dpi)
    } else {
        convert_spec(sens, dpi, new_dpi, yaw1.angle(), yaw2.angle())
    }
}

/// Converts the sensitivity `sens` of a game with yaw `yaw1`, played at
/// `dpi`, to a game with yaw `yaw2` played at `new_dpi`.
pub fn convert_sens(dpi: i32, sens: Fixed, yaw1: YawMode, new_dpi: i32, yaw2: YawMode) -> (r:
    Result<Fixed, MathError>)
    ensures
        r == convert_sens_spec(dpi, sens, yaw1, new_dpi, yaw2),
{
    match yaw2 {
        YawMode::RawCounts => calculate_cm(sens, dpi, yaw1.degrees()),
        YawMode::YawScaled(second) => match yaw1 {
            YawMode::RawCounts => calculate_sens(sens, new_dpi, second),
            YawMode::YawScaled(first) => convert_sensitivity(sens, dpi, new_dpi, first, second),
        },
    }
}

} // verus!
