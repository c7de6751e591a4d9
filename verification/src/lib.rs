//! Aim calibration: translating a mouse sensitivity between games, and
//! finding the yaw of a game that does not tell it, that is the degrees it
//! turns the view per pointer count.
//!
//! The library holds the rules and the arithmetic; it touches no device and
//! no file. A shell around it registers the hotkeys, reads the pointer,
//! sends synthetic motion and stores the settings, and asks the library what
//! to do at each step.
//!
//! * [`fixed`]: decimal fixed-point numbers with nine places, and division
//!   that rounds to the nearest. Every quantity with a fraction is one of
//!   them, so that every formula has an exact statement.
//! * [`calculations`]: centimetres per full turn, counts, DPI, field of view
//!   and yaw, each from the others.
//! * [`bisection`]: the search for the yaw between two limits.
//! * [`mouse_tracker`]: the capture session and the page that is showing.
//! * [`playback`]: a turn as a run of small pointer moves.
//! * [`hotkeys`]: what each of the four hotkeys does on each page.
//! * [`commands`]: the commands of the user interface.
//! * [`storage`]: repairing what comes back from the disk.
//! * [`models`], [`error`]: the records and the errors.

pub mod bisection;
pub mod calculations;
pub mod commands;
pub mod error;
pub mod fixed;
pub mod hotkeys;
pub mod models;
pub mod mouse_tracker;
pub mod playback;
pub mod storage;
