//! The records that the calibration works on.

use crate::calculations::FovAngle;
use crate::fixed::{Fixed, SCALE};
use vstd::prelude::*;

verus! {

/// State of the yaw calibration: the sensitivity it is measured at, the
/// current estimate `yaw` with the counts of a full turn at that estimate, and
/// the bracket that the bisection narrows.
#[derive(Clone, Copy, Debug, PartialEq, Eq, Structural)]
pub struct YawStuff {
    pub sens: Fixed,
    pub counts: i32,
    pub inc: Fixed,
    pub yaw: Fixed,
    pub lower_limit: Fixed,
    pub upper_limit: Fixed,
}

/// A yaw saved under the name of its game.
#[derive(Debug, PartialEq, Eq)]
pub struct GameYaw {
    pub name: String,
    pub yaw: Fixed,
}

impl View for GameYaw {
    type V = (Seq<char>, Fixed);

    open spec fn view(&self) -> (Seq<char>, Fixed) {
        (self.name@, self.yaw)
    }
}

impl Clone for GameYaw {
    fn clone(&self) -> (r: GameYaw)
        ensures
            r@ == self@,
    {
        GameYaw { name: self.name.clone(), yaw: self.yaw }
    }
}

/// What the player entered: mouse travel per full turn, DPI, fields of view
/// and the sensitivity of the game at hand.
#[derive(Clone, Copy, Debug, PartialEq, Eq, Structural)]
pub struct UserSettings {
    pub cm360: Fixed,
    pub dpi: i32,
    pub normal_fov: FovAngle,
    pub scoped_fov: FovAngle,
    pub game_sens: Fixed,
    pub game_fov: Fixed,
}

/// Settings kept across restarts: the divisor of the replay rate and the four
/// hotkeys, in the order rotate, probe, narrow down, narrow up.
#[derive(Debug, PartialEq, Eq)]
pub struct AppSettings {
    pub turn_speed: Fixed,
    pub hotkeys: Vec<String>,
}

/// The key names in `keys`, each as its sequence of characters.
pub open spec fn key_names(keys: Seq<String>) -> Seq<Seq<char>> {
    Seq::new(keys.len(), |i: int| keys[i]@)
}

/// The four hotkeys of a fresh installation: F1 to F4.
pub open spec fn default_key_names() -> Seq<Seq<char>> {
    seq!["F1"@, "F2"@, "F3"@, "F4"@]
}

impl View for AppSettings {
    type V = (Fixed, Seq<Seq<char>>);

    open spec fn view(&self) -> (Fixed, Seq<Seq<char>>) {
        (self.turn_speed, key_names(self.hotkeys@))
    }
}

impl Clone for AppSettings {
    fn clone(&self) -> (r: AppSettings)
        ensures
            r@ == self@,
            r.hotkeys@ == self.hotkeys@,
    {
        let hotkeys = self.hotkeys.clone();
        assert(hotkeys@ =~= self.hotkeys@);
        AppSettings { turn_speed: self.turn_speed, hotkeys }
    }
}

impl AppSettings {
    /// The turn speed is positive and there are exactly four hotkeys.
    pub open spec fn wf(&self) -> bool {
        self.turn_speed.raw > 0 && self.hotkeys@.len() == 4
    }

    /// Whether the turn speed is positive and there are exactly four hotkeys.
    pub fn is_valid(&self) -> (r: bool)
        ensures
            r == self.wf(),
    {
        self.turn_speed.raw > 0 && self.hotkeys.len() == 4
    }
}

/// The hotkeys F1 to F4.
pub fn default_hotkeys() -> (keys: Vec<String>)
    ensures
        keys@.len() == 4,
        key_names(keys@) == default_key_names(),
{
    let mut keys: Vec<String> = Vec::new();
    keys.push("F1".to_owned());
    keys.push("F2".to_owned());
    keys.push("F3".to_owned());
    keys.push("F4".to_owned());
    assert(key_names(keys@) =~= default_key_names());
    keys
}

impl Default for AppSettings {
    /// Turn speed 1 and the hotkeys F1 to F4.
    fn default() -> (r: AppSettings)
        ensures
            r@ == (Fixed { raw: SCALE }, default_key_names()),
            r.wf(),
    {
        AppSettings { turn_speed: Fixed { raw: SCALE }, hotkeys: default_hotkeys() }
    }
}

/// A field of view estimated from a capture.
#[derive(Clone, Copy, Debug, PartialEq, Eq, Structural)]
pub struct FovUpdatePayload {
    pub fov16: Fixed,
}

/// Mouse travel per full turn derived from a capture.
#[derive(Clone, Copy, Debug, PartialEq, Eq, Structural)]
pub struct CmUpdatePayload {
    pub cm_per360: Fixed,
}

} // verus!
