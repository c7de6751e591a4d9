//! What is kept across restarts, as it comes back from the disk: whatever is
//! missing or out of range is replaced by its default.

use crate::fixed::{Fixed, SCALE};
use crate::models::{default_hotkeys, default_key_names, key_names, AppSettings, GameYaw};
use vstd::prelude::*;

verus! {

/// The turn speed to run with: the stored one where it is positive, 1
/// otherwise.
pub open spec fn repaired_speed(stored: Option<Fixed>) -> Fixed {
    match stored {
        Some(speed) => if speed.raw > 0 {
            speed
        } else {
            Fixed { raw: SCALE }
        },
        None => Fixed { raw: SCALE },
    }
}

/// The hotkeys to run with: the stored ones where there are four of them, F1
/// to F4 otherwise.
pub open spec fn repaired_keys(stored: Option<Vec<String>>) -> Seq<Seq<char>> {
    match stored {
        Some(keys) => if keys@.len() == 4 {
            key_names(keys@)
        } else {
            default_key_names()
        },
        None => default_key_names(),
    }
}

/// The settings to run with, from what the settings record held: a turn
/// speed that is missing or not positive becomes 1, a list of hotkeys that is
/// missing or not of length four becomes F1 to F4. What is valid is kept.
pub fn load_app_settings(turn_speed: Option<Fixed>, hotkeys: Option<Vec<String>>) -> (r:
    AppSettings)
    ensures
        r.wf(),
        r@ == (repaired_speed(turn_speed), repaired_keys(hotkeys)),
{
    let turn_speed = match turn_speed {
        Some(speed) => if speed.raw > 0 {
            speed
        } else {
            Fixed { raw: SCALE }
        },
        None => Fixed { raw: SCALE },
    };
    let hotkeys = match hotkeys {
        Some(keys) => if keys.len() == 4 {
            keys
        } else {
            default_hotkeys()
        },
        None => default_hotkeys(),
    };
    AppSettings { turn_speed, hotkeys }
}

/// Settings that are valid load as they are: what was repaired once is not
/// touched the next time.
pub proof fn lemma_valid_settings_load_unchanged(settings: AppSettings)
    requires
        settings.wf(),
    ensures
        (repaired_speed(Some(settings.turn_speed)), repaired_keys(Some(settings.hotkeys)))
            == settings@,
{
}

/// The saved games, from what the list on disk held: a list that is missing
/// or unreadable is the empty list.
pub fn load_yaw_data(stored: Option<Vec<GameYaw>>) -> (games: Vec<GameYaw>)
    ensures
        games@ == (match stored {
            Some(list) => list@,
            None => Seq::<GameYaw>::empty(),
        }),
{
    match stored {
        Some(list) => list,
        None => Vec::new(),
    }
}

} // verus!
