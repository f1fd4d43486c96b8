//! The countdown state machine: status values, pause precedence, and the
//! timer itself with one atomic transition per public operation.
//!
//! Every mutating operation returns the `CountdownEvent` that the caller must
//! broadcast, or `None` when the operation was a no-op (or the timer has been
//! stopped). The transition each operation performs is written down as a spec
//! function, and the operation's contract says that the new state is exactly
//! that function of the old one.

use vstd::prelude::*;

verus! {

/// Why a countdown is frozen. `PreventSleep` carries the moment (seconds
/// since an arbitrary epoch) at which the system announced it would sleep.
#[derive(Clone, Copy, PartialEq, Eq, Structural, Debug)]
pub enum PauseOrigin {
    Idle,
    User,
    PreventSleep(u64),
}

/// A pause origin stripped of its payload: how a targeted resume request
/// addresses the pause it wants to lift, and how origins are ranked.
#[derive(Clone, Copy, PartialEq, Eq, Structural, Debug)]
pub enum OriginKind {
    Idle,
    User,
    PreventSleep,
}

/// The countdown's externally visible state. `NotStarted` carries the
/// configured duration; `Active` and `Paused` carry the remaining seconds.
#[derive(Clone, Copy, PartialEq, Eq, Structural, Debug)]
pub enum TimerStatus {
    NotStarted(u64),
    Active(u64),
    Paused(PauseOrigin, u64),
    Finished,
}

/// The sole payload broadcast on every committed timer transition.
#[derive(Clone, Copy, PartialEq, Eq, Structural, Debug)]
pub struct CountdownEvent {
    pub status: TimerStatus,
}

/// A pause or targeted-resume request, as issued by the monitors.
#[derive(Clone, Copy, PartialEq, Eq, Structural, Debug)]
pub enum TimerRequest {
    Pause(PauseOrigin),
    Resume(OriginKind),
}

pub open spec fn kind_of(o: PauseOrigin) -> OriginKind {
    match o {
        PauseOrigin::Idle => OriginKind::Idle,
        PauseOrigin::User => OriginKind::User,
        PauseOrigin::PreventSleep(_) => OriginKind::PreventSleep,
    }
}

/// Pause precedence, high to low: `PreventSleep` > `User` > `Idle`.
pub open spec fn priority(o: PauseOrigin) -> int {
    match o {
        PauseOrigin::Idle => 0,
        PauseOrigin::User => 1,
        PauseOrigin::PreventSleep(_) => 2,
    }
}

/// The remaining seconds a status carries, if it carries any.
pub open spec fn remaining_of(s: TimerStatus) -> Option<u64> {
    match s {
        TimerStatus::Active(r) => Some(r),
        TimerStatus::Paused(_, r) => Some(r),
        _ => None,
    }
}

/// `start` is accepted only before the first cycle or after a finished one.
pub open spec fn can_start(s: TimerStatus) -> bool {
    s is NotStarted || s is Finished
}

/// What `start(duration)` does to the status.
pub open spec fn start_step(s: TimerStatus, duration: u64) -> TimerStatus {
    if can_start(s) {
        TimerStatus::Active(duration)
    } else {
        s
    }
}

/// What `pause(origin)` does to the status: freeze an active countdown, or
/// overwrite an existing pause only with a strictly higher-priority origin.
pub open spec fn pause_step(s: TimerStatus, origin: PauseOrigin) -> TimerStatus {
    match s {
        TimerStatus::Active(r) => TimerStatus::Paused(origin, r),
        TimerStatus::Paused(existing, r) => if priority(origin) > priority(existing) {
            TimerStatus::Paused(origin, r)
        } else {
            s
        },
        _ => s,
    }
}

/// What a targeted `resume(kind)` does: lift the pause only when the request
/// addresses the origin that holds it.
pub open spec fn resume_targeted_step(s: TimerStatus, kind: OriginKind) -> TimerStatus {
    match s {
        TimerStatus::Paused(existing, r) => if kind_of(existing) == kind {
            TimerStatus::Active(r)
        } else {
            s
        },
        _ => s,
    }
}

/// What a generic resume does: lift whichever pause is in place.
pub open spec fn resume_step(s: TimerStatus) -> TimerStatus {
    match s {
        TimerStatus::Paused(_, r) => TimerStatus::Active(r),
        _ => s,
    }
}

/// What one tick does: count an active countdown down by one second, and
/// finish it when that reaches zero. Every other state is left alone.
pub open spec fn tick_step(s: TimerStatus) -> TimerStatus {
    match s {
        TimerStatus::Active(r) => if r <= 1 {
            TimerStatus::Finished
        } else {
            TimerStatus::Active((r - 1) as u64)
        },
        _ => s,
    }
}

/// What the user-facing toggle does: a running countdown is paused on the
/// user's behalf, anything paused is resumed unconditionally.
pub open spec fn toggle_step(s: TimerStatus) -> TimerStatus {
    if s is Active {
        pause_step(s, PauseOrigin::User)
    } else {
        resume_step(s)
    }
}

/// What a monitor request does to the status.
pub open spec fn request_step(s: TimerStatus, req: TimerRequest) -> TimerStatus {
    match req {
        TimerRequest::Pause(origin) => pause_step(s, origin),
        TimerRequest::Resume(kind) => resume_targeted_step(s, kind),
    }
}

/// The event an operation emits when it moved the status from `before` to
/// `after`: one event per committed change, none for a no-op.
pub open spec fn emitted(before: TimerStatus, after: TimerStatus) -> Option<CountdownEvent> {
    if after != before {
        Some(CountdownEvent { status: after })
    } else {
        None
    }
}

/// The abstract state of a [`CountdownTimer`].
pub struct TimerModel {
    pub status: TimerStatus,
    pub configured: u64,
    pub stopped: bool,
}

impl TimerModel {
    /// A `NotStarted` status always advertises the configured duration.
    pub open spec fn wf(self) -> bool {
        self.status matches TimerStatus::NotStarted(d) ==> d == self.configured
    }
}

/// The countdown timer. It owns the current status, the duration the next
/// `restart` will use, and whether it has been stopped for shutdown.
///
/// The struct itself is single-threaded; the embedding application wraps it
/// in its own mutual exclusion and performs each call as one critical
/// section, broadcasting the returned event after the lock is released.
pub struct CountdownTimer {
    status: TimerStatus,
    configured: u64,
    stopped: bool,
}

impl View for CountdownTimer {
    type V = TimerModel;

    closed spec fn view(&self) -> TimerModel {
        TimerModel { status: self.status, configured: self.configured, stopped: self.stopped }
    }
}

pub fn origin_kind(o: &PauseOrigin) -> (k: OriginKind)
    ensures
        k == kind_of(*o),
{
    match o {
        PauseOrigin::Idle => OriginKind::Idle,
        PauseOrigin::User => OriginKind::User,
        PauseOrigin::PreventSleep(_) => OriginKind::PreventSleep,
    }
}

pub fn origin_priority(o: &PauseOrigin) -> (p: u8)
    ensures
        p as int == priority(*o),
{
    match o {
        PauseOrigin::Idle => 0,
        PauseOrigin::User => 1,
        PauseOrigin::PreventSleep(_) => 2,
    }
}

impl TimerStatus {
    pub open spec fn is_running_spec(self) -> bool {
        self is Active
    }

    /// Whether the countdown is actually counting (drives the toggle and the
    /// pause/resume label in the embedding application).
    pub fn is_running(&self) -> (b: bool)
        ensures
            b == self.is_running_spec(),
    {
        matches!(self, TimerStatus::Active(_))
    }
}

impl CountdownTimer {
    /// A fresh timer that will run `configured_duration` seconds per cycle.
    pub fn new(configured_duration: u64) -> (t: CountdownTimer)
        ensures
            t@ == (TimerModel {
                status: TimerStatus::NotStarted(configured_duration),
                configured: configured_duration,
                stopped: false,
            }),
            t@.wf(),
    {
        CountdownTimer {
            status: TimerStatus::NotStarted(configured_duration),
            configured: configured_duration,
            stopped: false,
        }
    }

    /// Non-mutating snapshot of the current status.
    pub fn timer_status(&self) -> (s: TimerStatus)
        ensures
            s == self@.status,
    {
        self.status
    }

    /// Begin a cycle of `duration` seconds. Accepted only from `NotStarted`
    /// or `Finished`; anywhere else (or after `stop`) it is a no-op. An
    /// accepted start also records `duration` as the configured duration.
    pub fn start(&mut self, duration: u64) -> (evt: Option<CountdownEvent>)
        requires
            old(self)@.wf(),
        ensures
            final(self)@.wf(),
            final(self)@.stopped == old(self)@.stopped,
            old(self)@.stopped ==> final(self)@ == old(self)@ && evt is None,
            !old(self)@.stopped ==> {
                &&& final(self)@.status == start_step(old(self)@.status, duration)
                &&& final(self)@.configured == (if can_start(old(self)@.status) {
                    duration
                } else {
                    old(self)@.configured
                })
                &&& evt == emitted(old(self)@.status, final(self)@.status)
            },
    {
        if self.stopped {
            return None;
        }
        match self.status {
            TimerStatus::NotStarted(_) | TimerStatus::Finished => {
                self.status = TimerStatus::Active(duration);
                self.configured = duration;
                Some(CountdownEvent { status: self.status })
            },
            _ => None,
        }
    }

    /// Reset to `Active(configured)` from any state; begins the next cycle
    /// after a session, so it always commits (and emits) a transition.
    pub fn restart(&mut self) -> (evt: Option<CountdownEvent>)
        requires
            old(self)@.wf(),
        ensures
            final(self)@.wf(),
            final(self)@.stopped == old(self)@.stopped,
            final(self)@.configured == old(self)@.configured,
            old(self)@.stopped ==> final(self)@ == old(self)@ && evt is None,
            !old(self)@.stopped ==> {
                &&& final(self)@.status == TimerStatus::Active(old(self)@.configured)
                &&& evt == Some(CountdownEvent { status: TimerStatus::Active(old(self)@.configured) })
            },
    {
        if self.stopped {
            return None;
        }
        self.status = TimerStatus::Active(self.configured);
        Some(CountdownEvent { status: self.status })
    }

    /// Request a pause on behalf of `origin`; see [`pause_step`] for the
    /// precedence rule. A request that does not apply is a silent no-op.
    pub fn pause(&mut self, origin: PauseOrigin) -> (evt: Option<CountdownEvent>)
        requires
            old(self)@.wf(),
        ensures
            final(self)@.wf(),
            final(self)@.stopped == old(self)@.stopped,
            final(self)@.configured == old(self)@.configured,
            old(self)@.stopped ==> final(self)@ == old(self)@ && evt is None,
            !old(self)@.stopped ==> {
                &&& final(self)@.status == pause_step(old(self)@.status, origin)
                &&& evt == emitted(old(self)@.status, final(self)@.status)
            },
    {
        if self.stopped {
            return None;
        }
        let before = self.status;
        let next = match self.status {
            TimerStatus::Active(r) => TimerStatus::Paused(origin, r),
            TimerStatus::Paused(existing, r) => {
                if origin_priority(&origin) > origin_priority(&existing) {
                    TimerStatus::Paused(origin, r)
                } else {
                    self.status
                }
            },
            _ => self.status,
        };
        self.status = next;
        if next != before {
            Some(CountdownEvent { status: next })
        } else {
            None
        }
    }

    /// Targeted resume: lifts the pause only when `kind` names the origin
    /// that holds it. Used by the monitors, which know why they paused.
    pub fn resume_origin(&mut self, kind: OriginKind) -> (evt: Option<CountdownEvent>)
        requires
            old(self)@.wf(),
        ensures
            final(self)@.wf(),
            final(self)@.stopped == old(self)@.stopped,
            final(self)@.configured == old(self)@.configured,
            old(self)@.stopped ==> final(self)@ == old(self)@ && evt is None,
            !old(self)@.stopped ==> {
                &&& final(self)@.status == resume_targeted_step(old(self)@.status, kind)
                &&& evt == emitted(old(self)@.status, final(self)@.status)
            },
    {
        if self.stopped {
            return None;
        }
        let before = self.status;
        let next = match self.status {
            TimerStatus::Paused(existing, r) => {
                if origin_kind(&existing) == kind {
                    TimerStatus::Active(r)
                } else {
                    self.status
                }
            },
            _ => self.status,
        };
        self.status = next;
        if next != before {
            Some(CountdownEvent { status: next })
        } else {
            None
        }
    }

    /// Generic resume, for explicit user interaction: lifts whichever pause
    /// is in place, whatever its origin.
    pub fn resume(&mut self) -> (evt: Option<CountdownEvent>)
        requires
            old(self)@.wf(),
        ensures
            final(self)@.wf(),
            final(self)@.stopped == old(self)@.stopped,
            final(self)@.configured == old(self)@.configured,
            old(self)@.stopped ==> final(self)@ == old(self)@ && evt is None,
            !old(self)@.stopped ==> {
                &&& final(self)@.status == resume_step(old(self)@.status)
                &&& evt == emitted(old(self)@.status, final(self)@.status)
            },
    {
        if self.stopped {
            return None;
        }
        let before = self.status;
        let next = match self.status {
            TimerStatus::Paused(_, r) => TimerStatus::Active(r),
            _ => self.status,
        };
        self.status = next;
        if next != before {
            Some(CountdownEvent { status: next })
        } else {
            None
        }
    }

    /// One second of countdown; see [`tick_step`]. Reaching zero commits the
    /// single transition to `Finished`; later ticks find `Finished` and emit
    /// nothing.
    pub fn tick(&mut self) -> (evt: Option<CountdownEvent>)
        requires
            old(self)@.wf(),
        ensures
            final(self)@.wf(),
            final(self)@.stopped == old(self)@.stopped,
            final(self)@.configured == old(self)@.configured,
            old(self)@.stopped ==> final(self)@ == old(self)@ && evt is None,
            !old(self)@.stopped ==> {
                &&& final(self)@.status == tick_step(old(self)@.status)
                &&& evt == emitted(old(self)@.status, final(self)@.status)
            },
    {
        if self.stopped {
            return None;
        }
        match self.status {
            TimerStatus::Active(r) => {
                if r <= 1 {
                    self.status = TimerStatus::Finished;
                } else {
                    self.status = TimerStatus::Active(r - 1);
                }
                Some(CountdownEvent { status: self.status })
            },
            _ => None,
        }
    }

    /// The user-facing toggle; see [`toggle_step`].
    pub fn toggle(&mut self) -> (evt: Option<CountdownEvent>)
        requires
            old(self)@.wf(),
        ensures
            final(self)@.wf(),
            final(self)@.stopped == old(self)@.stopped,
            final(self)@.configured == old(self)@.configured,
            old(self)@.stopped ==> final(self)@ == old(self)@ && evt is None,
            !old(self)@.stopped ==> {
                &&& final(self)@.status == toggle_step(old(self)@.status)
                &&& evt == emitted(old(self)@.status, final(self)@.status)
            },
    {
        let running = self.timer_status().is_running();
        if running {
            self.pause(PauseOrigin::User)
        } else {
            self.resume()
        }
    }

    /// Apply a monitor request; see [`request_step`].
    pub fn apply_request(&mut self, req: TimerRequest) -> (evt: Option<CountdownEvent>)
        requires
            old(self)@.wf(),
        ensures
            final(self)@.wf(),
            final(self)@.stopped == old(self)@.stopped,
            final(self)@.configured == old(self)@.configured,
            old(self)@.stopped ==> final(self)@ == old(self)@ && evt is None,
            !old(self)@.stopped ==> {
                &&& final(self)@.status == request_step(old(self)@.status, req)
                &&& evt == emitted(old(self)@.status, final(self)@.status)
            },
    {
        match req {
            TimerRequest::Pause(origin) => self.pause(origin),
            TimerRequest::Resume(kind) => self.resume_origin(kind),
        }
    }

    /// Record a new configured duration, to take effect on the next
    /// `restart`. A running or paused countdown is not touched; only the
    /// advertised duration of a `NotStarted` status changes with it.
    pub fn change_duration(&mut self, duration: u64) -> (evt: Option<CountdownEvent>)
        requires
            old(self)@.wf(),
        ensures
            final(self)@.wf(),
            final(self)@.stopped == old(self)@.stopped,
            old(self)@.stopped ==> final(self)@ == old(self)@ && evt is None,
            !old(self)@.stopped ==> {
                &&& final(self)@.configured == duration
                &&& final(self)@.status == (if old(self)@.status is NotStarted {
                    TimerStatus::NotStarted(duration)
                } else {
                    old(self)@.status
                })
                &&& evt == emitted(old(self)@.status, final(self)@.status)
            },
    {
        if self.stopped {
            return None;
        }
        self.configured = duration;
        let before = self.status;
        let next = match self.status {
            TimerStatus::NotStarted(_) => TimerStatus::NotStarted(duration),
            _ => self.status,
        };
        self.status = next;
        if next != before {
            Some(CountdownEvent { status: next })
        } else {
            None
        }
    }

    /// Shut the timer down: the status is frozen as it stands and every later
    /// operation is a no-op that emits nothing, so no `CountdownEvent` can be
    /// observed after `stop` returns.
    pub fn stop(&mut self)
        requires
            old(self)@.wf(),
        ensures
            final(self)@.wf(),
            final(self)@.status == old(self)@.status,
            final(self)@.configured == old(self)@.configured,
            final(self)@.stopped,
    {
        self.stopped = true;
    }
}

/// The configured break interval is stored in minutes; the countdown runs
/// in seconds.
pub fn break_minutes_to_seconds(minutes: u32) -> (secs: u64)
    ensures
        secs == minutes * 60,
{
    (minutes as u64) * 60
}

/// `after` carries a remaining value only if `before` did, and no larger.
pub open spec fn remaining_non_increasing(before: TimerStatus, after: TimerStatus) -> bool {
    remaining_of(after) matches Some(ra) ==> (remaining_of(before) matches Some(rb) && ra <= rb)
}

/// The remaining seconds are monotonically non-increasing under every
/// operation except `start` and `restart`: pausing and resuming carry the
/// value across unchanged, and a tick only counts it down.
pub proof fn lemma_remaining_non_increasing(s: TimerStatus, origin: PauseOrigin, kind: OriginKind)
    ensures
        remaining_non_increasing(s, pause_step(s, origin)),
        remaining_non_increasing(s, resume_targeted_step(s, kind)),
        remaining_non_increasing(s, resume_step(s)),
        remaining_non_increasing(s, tick_step(s)),
        remaining_non_increasing(s, toggle_step(s)),
{
}

/// A pause request of equal or lower priority than the pause already in
/// place leaves the state exactly as it was: origin and remaining unchanged.
pub proof fn lemma_pause_no_overwrite(origin: PauseOrigin, existing: PauseOrigin, r: u64)
    requires
        priority(origin) <= priority(existing),
    ensures
        pause_step(TimerStatus::Paused(existing, r), origin) == TimerStatus::Paused(existing, r),
{
}

/// A pause request of strictly higher priority overwrites the origin of the
/// pause in place and preserves the remaining seconds exactly.
pub proof fn lemma_pause_overwrite(origin: PauseOrigin, existing: PauseOrigin, r: u64)
    requires
        priority(origin) > priority(existing),
    ensures
        pause_step(TimerStatus::Paused(existing, r), origin) == TimerStatus::Paused(origin, r),
{
}

/// A targeted resume that names the origin holding the pause yields
/// `Active(r)`; one that names any other origin is a no-op. (The request
/// addresses the origin by kind: a `PreventSleep` pause is matched whatever
/// timestamp it was taken with.)
pub proof fn lemma_resume_targeted(kind: OriginKind, existing: PauseOrigin, r: u64)
    ensures
        kind_of(existing) == kind ==> resume_targeted_step(TimerStatus::Paused(existing, r), kind)
            == TimerStatus::Active(r),
        kind_of(existing) != kind ==> resume_targeted_step(TimerStatus::Paused(existing, r), kind)
            == TimerStatus::Paused(existing, r),
{
}

/// A generic resume of a paused timer always yields `Active(r)`, whatever
/// the origin of the pause.
pub proof fn lemma_resume_generic(existing: PauseOrigin, r: u64)
    ensures
        resume_step(TimerStatus::Paused(existing, r)) == TimerStatus::Active(r),
{
}

/// `Finished` is reached in one way only: by the tick that exhausts an
/// active countdown. No pause, resume, start or toggle ever finishes a
/// countdown that was not finished already.
pub proof fn lemma_finished_only_by_exhaustion(
    s: TimerStatus,
    origin: PauseOrigin,
    kind: OriginKind,
    duration: u64,
)
    ensures
        pause_step(s, origin) is Finished ==> s is Finished,
        resume_targeted_step(s, kind) is Finished ==> s is Finished,
        resume_step(s) is Finished ==> s is Finished,
        toggle_step(s) is Finished ==> s is Finished,
        !(start_step(s, duration) is Finished),
        tick_step(s) is Finished ==> (s is Finished || (s matches TimerStatus::Active(r) && r
            <= 1)),
{
}

/// A countdown reaching zero produces exactly one `Finished` event: the tick
/// that exhausts it transitions to `Finished` and emits that event, and every
/// later tick finds `Finished`, stays there, and emits nothing.
pub proof fn lemma_finished_fires_once(r: u64)
    ensures
        r <= 1 ==> tick_step(TimerStatus::Active(r)) == TimerStatus::Finished,
        r <= 1 ==> emitted(TimerStatus::Active(r), tick_step(TimerStatus::Active(r)))
            == Some(CountdownEvent { status: TimerStatus::Finished }),
        tick_step(TimerStatus::Finished) == TimerStatus::Finished,
        emitted(TimerStatus::Finished, tick_step(TimerStatus::Finished)) is None,
{
}

} // verus!
