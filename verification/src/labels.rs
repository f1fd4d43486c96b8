//! The fixed label texts the tray derives from a timer status.
//!
//! Rendering itself (the tray icon, the pretty-printed countdown for an
//! active timer) belongs to the shell; the choice of which fixed label a
//! status maps to is decided here.

use vstd::prelude::*;

use crate::timer::PauseOrigin;
use crate::timer::TimerStatus;

verus! {

/// The tray's toggle entry offers to pause a running countdown and to
/// resume anything else.
pub fn toggle_label(status: &TimerStatus) -> (label: &'static str)
    ensures
        status.is_running_spec() ==> label@ == "Pause"@,
        !status.is_running_spec() ==> label@ == "Resume"@,
{
    if status.is_running() {
        "Pause"
    } else {
        "Resume"
    }
}

/// The tray title shown while the countdown is frozen, one word per origin:
/// the user is idle, the machine is busy going to sleep, or the user asked
/// for silence.
pub fn paused_title(origin: &PauseOrigin) -> (title: &'static str)
    ensures
        origin is Idle ==> title@ == "Idle"@,
        origin is PreventSleep ==> title@ == "Busy"@,
        origin is User ==> title@ == "Silent"@,
{
    match origin {
        PauseOrigin::Idle => "Idle",
        PauseOrigin::PreventSleep(_) => "Busy",
        PauseOrigin::User => "Silent",
    }
}

/// Whether the tray shows a title at all for this status: only a counting
/// or paused timer advertises itself.
pub fn shows_tray_title(status: &TimerStatus) -> (shown: bool)
    ensures
        shown == (status is Active || status is Paused),
{
    matches!(status, TimerStatus::Active(_) | TimerStatus::Paused(_, _))
}

} // verus!
