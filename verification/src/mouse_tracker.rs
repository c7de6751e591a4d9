//! The capture session that sums the pointer's horizontal motion, and the
//! state of the application that owns it.

use crate::error::CaptureError;
use vstd::prelude::*;

verus! {

/// A capture session: whether it is running, and the horizontal counts it has
/// summed since it was started.
#[derive(Clone, Copy, Debug, PartialEq, Eq, Structural)]
pub struct MouseTracker {
    pub tracking: bool,
    pub count: i32,
}

impl MouseTracker {
    /// A session that is not running and has counted nothing.
    pub fn new() -> (r: MouseTracker)
        ensures
            r == (MouseTracker { tracking: false, count: 0 }),
    {
        MouseTracker { tracking: false, count: 0 }
    }

    /// Starts the session, given whether the system registered the pointer
    /// device. A running session is not started again; a refused registration
    /// starts nothing. A started session counts from zero.
    pub fn start_tracking(&mut self, registered: bool) -> (r: Result<(), CaptureError>)
        ensures
            old(self).tracking ==> r == Err::<(), CaptureError>(CaptureError::AlreadyTracking)
                && *final(self) == *old(self),
            !old(self).tracking && !registered ==> r == Err::<(), CaptureError>(
                CaptureError::RegistrationDenied,
            ) && *final(self) == *old(self),
            !old(self).tracking && registered ==> r is Ok && *final(self) == (MouseTracker {
                tracking: true,
                count: 0,
            }),
    {
        if self.tracking {
            Err(CaptureError::AlreadyTracking)
        } else if !registered {
            Err(CaptureError::RegistrationDenied)
        } else {
            self.tracking = true;
            self.count = 0;
            Ok(())
        }
    }

    /// Stops the session, given whether the system released the pointer
    /// device. The sum stays as it is; a refused release changes nothing.
    pub fn stop_tracking(&mut self, released: bool) -> (r: Result<(), CaptureError>)
        ensures
            released ==> r is Ok && *final(self) == (MouseTracker {
                tracking: false,
                count: old(self).count,
            }),
            !released ==> r == Err::<(), CaptureError>(CaptureError::UnregistrationDenied)
                && *final(self) == *old(self),
    {
        if released {
            self.tracking = false;
            Ok(())
        } else {
            Err(CaptureError::UnregistrationDenied)
        }
    }

    /// Takes the horizontal part `x` of one motion event: a running session
    /// adds it to its sum, with its sign; a session that is not running
    /// lets it pass.
    pub fn update_counts(&mut self, x: i32)
        requires
            old(self).tracking ==> i32::MIN <= old(self).count + x <= i32::MAX,
        ensures
            final(self).tracking == old(self).tracking,
            final(self).count == (if old(self).tracking {
                old(self).count + x
            } else {
                old(self).count as int
            }),
    {
        if self.tracking {
            self.count = self.count + x;
        }
    }
}

/// The calibration screen that is showing: it decides what a hotkey does.
#[derive(Clone, Copy, Debug, PartialEq, Eq, Structural)]
pub enum CalibrationPage {
    MainSensitivity,
    ScopedSensitivity,
    MeasureFov,
    MeasureYaw,
    Unknown,
}

/// The page that goes by `name`; a name of no page is the unknown page.
pub open spec fn page_named(name: Seq<char>) -> CalibrationPage {
    if name == "main_sensitivity"@ {
        CalibrationPage::MainSensitivity
    } else if name == "scoped_sensitivity"@ {
        CalibrationPage::ScopedSensitivity
    } else if name == "measure_fov"@ {
        CalibrationPage::MeasureFov
    } else if name == "measure_yaw"@ {
        CalibrationPage::MeasureYaw
    } else {
        CalibrationPage::Unknown
    }
}

impl CalibrationPage {
    /// The page that goes by `name`.
    pub fn from_name(name: &String) -> (r: CalibrationPage)
        ensures
            r == page_named(name@),
    {
        if *name == "main_sensitivity".to_owned() {
            CalibrationPage::MainSensitivity
        } else if *name == "scoped_sensitivity".to_owned() {
            CalibrationPage::ScopedSensitivity
        } else if *name == "measure_fov".to_owned() {
            CalibrationPage::MeasureFov
        } else if *name == "measure_yaw".to_owned() {
            CalibrationPage::MeasureYaw
        } else {
            CalibrationPage::Unknown
        }
    }
}

/// What the hotkeys act on: the page that is showing and the capture session.
#[derive(Clone, Copy, Debug, PartialEq, Eq, Structural)]
pub struct AppState {
    pub current_page: CalibrationPage,
    pub tracker: MouseTracker,
}

impl AppState {
    /// The state at startup: the main sensitivity page, nothing captured.
    pub fn new() -> (r: AppState)
        ensures
            r == (AppState {
                current_page: CalibrationPage::MainSensitivity,
                tracker: MouseTracker { tracking: false, count: 0 },
            }),
    {
        AppState { current_page: CalibrationPage::MainSensitivity, tracker: MouseTracker::new() }
    }
}

} // verus!
