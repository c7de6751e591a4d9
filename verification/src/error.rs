//! Error values of the library.

use vstd::prelude::*;

verus! {

/// Why a sensitivity formula has no value.
#[derive(Clone, Copy, Debug, PartialEq, Eq, Structural)]
pub enum MathError {
    /// A divisor of the formula is zero (or a count that must be positive is not).
    DivisionByZero,
    /// The value does not fit the integer type that has to hold it.
    Overflow,
    /// A field of view is an odd multiple of 180 degrees, where the tangent of
    /// its half has no value.
    FovSingularity,
}

/// Why a capture yields no value.
#[derive(Clone, Copy, Debug, PartialEq, Eq, Structural)]
pub enum CalibrationError {
    /// The capture session is still running.
    StillTracking,
    /// The value asked for does not exist.
    Math(MathError),
}

/// Why a capture session could not be started or stopped.
#[derive(Clone, Copy, Debug, PartialEq, Eq, Structural)]
pub enum CaptureError {
    /// The system refused to register the pointer device.
    RegistrationDenied,
    /// The system refused to release the pointer device.
    UnregistrationDenied,
    /// A session is already active.
    AlreadyTracking,
}

impl CaptureError {
    /// The error in words.
    pub open spec fn message_spec(self) -> Seq<char> {
        match self {
            CaptureError::RegistrationDenied => "Failed to register raw input device(s)."@,
            CaptureError::UnregistrationDenied => "Failed to unregister raw input device(s)."@,
            CaptureError::AlreadyTracking => "A capture session is already running."@,
        }
    }

    /// The error in words.
    pub fn message(&self) -> (r: String)
        ensures
            r@ == self.message_spec(),
    {
        match self {
            CaptureError::RegistrationDenied => {
                "Failed to register raw input device(s).".to_owned()
            },
            CaptureError::UnregistrationDenied => {
                "Failed to unregister raw input device(s).".to_owned()
            },
            CaptureError::AlreadyTracking => "A capture session is already running.".to_owned(),
        }
    }
}

/// Why new application settings were not accepted.
#[derive(Clone, Copy, Debug, PartialEq, Eq, Structural)]
pub enum SettingsError {
    /// The turn speed is not positive.
    TurnSpeed,
    /// The list of hotkeys does not hold exactly four bindings.
    HotkeyCount,
}

} // verus!
