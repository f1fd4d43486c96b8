//! The two signal monitors, reduced to their decisions.
//!
//! The platform layer samples "seconds since the last user activity" and
//! delivers sleep/wake notifications; the functions here turn those plain
//! values into [`TimerRequest`]s. How the signals are detected is the
//! platform layer's business; the single-shot and matching rules are decided
//! here and verified.

use vstd::prelude::*;

use crate::timer::OriginKind;
use crate::timer::PauseOrigin;
use crate::timer::TimerRequest;

verus! {

/// An OS-level power notification: the system is about to sleep (with the
/// current time in seconds), or it just woke up.
#[derive(Clone, Copy, PartialEq, Eq, Structural, Debug)]
pub enum PowerEvent {
    SleepImminent(u64),
    Wake,
}

/// Watches the user-activity signal and asks the timer to pause during an
/// idle episode. One pause request per episode: while the user stays idle no
/// further request is issued, and the first activity ends the episode with a
/// targeted resume.
pub struct IdleMonitor {
    threshold_secs: u64,
    idle: bool,
}

/// The monitor's abstract state: its idle threshold and whether it currently
/// believes the user is idle.
pub struct IdleModel {
    pub threshold_secs: u64,
    pub idle: bool,
}

impl View for IdleMonitor {
    type V = IdleModel;

    closed spec fn view(&self) -> IdleModel {
        IdleModel { threshold_secs: self.threshold_secs, idle: self.idle }
    }
}

/// Whether an activity gap of `idle_for_secs` counts as idle: strictly
/// longer than the threshold.
pub open spec fn is_idle_gap(threshold_secs: u64, idle_for_secs: u64) -> bool {
    idle_for_secs > threshold_secs
}

/// What one sample does to the monitor's belief and what it asks of the
/// timer: a pause on the crossing into idleness, a targeted resume on the
/// crossing back, nothing in between.
pub open spec fn idle_sample_request(m: IdleModel, idle_for_secs: u64) -> Option<TimerRequest> {
    if is_idle_gap(m.threshold_secs, idle_for_secs) != m.idle {
        if m.idle {
            Some(TimerRequest::Resume(OriginKind::Idle))
        } else {
            Some(TimerRequest::Pause(PauseOrigin::Idle))
        }
    } else {
        None
    }
}

impl IdleMonitor {
    /// A monitor that calls the user idle after more than `threshold_secs`
    /// seconds without activity, and initially believes the user active.
    pub fn new(threshold_secs: u64) -> (m: IdleMonitor)
        ensures
            m@ == (IdleModel { threshold_secs, idle: false }),
    {
        IdleMonitor { threshold_secs, idle: false }
    }

    /// One cadence sample. `idle_for_secs` is how long ago the last user
    /// activity was; the returned request, if any, is handed to the timer.
    pub fn sample(&mut self, idle_for_secs: u64) -> (req: Option<TimerRequest>)
        ensures
            final(self)@.threshold_secs == old(self)@.threshold_secs,
            final(self)@.idle == is_idle_gap(old(self)@.threshold_secs, idle_for_secs),
            req == idle_sample_request(old(self)@, idle_for_secs),
    {
        let now_idle = idle_for_secs > self.threshold_secs;
        let was_idle = self.idle;
        self.idle = now_idle;
        if now_idle == was_idle {
            None
        } else if was_idle {
            Some(TimerRequest::Resume(OriginKind::Idle))
        } else {
            Some(TimerRequest::Pause(PauseOrigin::Idle))
        }
    }
}

/// What a power notification asks of the timer: sleep-imminent pauses with
/// `PreventSleep` (carrying the notification's timestamp), wake issues the
/// matching targeted resume. The monitor keeps no state of its own.
pub open spec fn power_request_spec(e: PowerEvent) -> TimerRequest {
    match e {
        PowerEvent::SleepImminent(now) => TimerRequest::Pause(PauseOrigin::PreventSleep(now)),
        PowerEvent::Wake => TimerRequest::Resume(OriginKind::PreventSleep),
    }
}

/// Translate a power notification into the timer request it stands for.
pub fn power_request(e: PowerEvent) -> (req: TimerRequest)
    ensures
        req == power_request_spec(e),
{
    match e {
        PowerEvent::SleepImminent(now) => TimerRequest::Pause(PauseOrigin::PreventSleep(now)),
        PowerEvent::Wake => TimerRequest::Resume(OriginKind::PreventSleep),
    }
}

/// While the user stays on one side of the threshold, repeated samples issue
/// no request: the pause request is single-shot per idle episode.
pub proof fn lemma_idle_single_shot(m: IdleModel, idle_for_secs: u64)
    requires
        m.idle == is_idle_gap(m.threshold_secs, idle_for_secs),
    ensures
        idle_sample_request(m, idle_for_secs) is None,
{
}

} // verus!
