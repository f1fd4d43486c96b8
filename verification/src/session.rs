//! Session orchestration: what happens when the countdown expires (or the
//! user asks for a break right now).
//!
//! The entitlement query, the session-counter store, the tracking channel
//! and the windows are collaborators of the embedding application; the rules
//! that combine their answers — the demo bypass, the fail-closed entitlement
//! gate, the parameter fallback chain and the end-of-session prompts — are
//! decided here and verified. The application performs exactly what the
//! returned plan says.

use vstd::prelude::*;

verus! {

/// How much the user is asked to drink in one session.
#[derive(Clone, Copy, PartialEq, Eq, Structural, Debug)]
pub enum SipSize {
    SmallSip,
    MediumSip,
    BigSip,
}

/// The figure shown during a session.
#[derive(Clone, Copy, PartialEq, Eq, Structural, Debug)]
pub enum DrinkCharacter {
    YoungWoman,
    YoungMan,
    OlderWoman,
    OlderMan,
}

/// The payload handed to the session surface when a session starts.
#[derive(Clone, Copy, PartialEq, Eq, Structural, Debug)]
pub struct SessionStartEvent {
    pub sip_size: SipSize,
    pub selected_drink_character: DrinkCharacter,
    pub demo_mode: bool,
}

/// The session-relevant part of the stored user settings.
#[derive(Clone, Copy, PartialEq, Eq, Structural, Debug)]
pub struct UserSessionSettings {
    pub sip_size: SipSize,
    pub character: DrinkCharacter,
}

/// The licensing collaborator's answer. A `Failed` query (network or
/// service error) is treated exactly like `Inactive` — fail-closed — except
/// that the user is additionally shown an alert.
#[derive(Clone, Copy, PartialEq, Eq, Structural, Debug)]
pub enum EntitlementCheck {
    Active,
    Inactive,
    Failed,
}

/// Where the flow goes: a session starts, or the user is redirected to the
/// payment/welcome flow.
#[derive(Clone, Copy, PartialEq, Eq, Structural, Debug)]
pub enum SessionOutcome {
    Start(SessionStartEvent),
    RedirectToPayment,
}

/// Everything the embedding application must do for one session trigger.
#[derive(Clone, Copy, PartialEq, Eq, Structural, Debug)]
pub struct SessionPlan {
    pub outcome: SessionOutcome,
    pub increment_session_count: bool,
    pub send_tracking: bool,
    pub alert_license_failure: bool,
    pub restart_timer: bool,
}

/// A request is a demo request when it carries explicit parameters that ask
/// for demo mode.
pub open spec fn is_demo_request(overwrite: Option<SessionStartEvent>) -> bool {
    overwrite matches Some(s) && s.demo_mode
}

/// The parameters a session runs with: explicit parameters win, then the
/// stored user settings, then the documented defaults (a big sip, the young
/// woman).
pub open spec fn resolved_session(
    overwrite: Option<SessionStartEvent>,
    user_settings: Option<UserSessionSettings>,
) -> SessionStartEvent {
    match overwrite {
        Some(s) => s,
        None => match user_settings {
            Some(u) => SessionStartEvent {
                sip_size: u.sip_size,
                selected_drink_character: u.character,
                demo_mode: false,
            },
            None => SessionStartEvent {
                sip_size: SipSize::BigSip,
                selected_drink_character: DrinkCharacter::YoungWoman,
                demo_mode: false,
            },
        },
    }
}

/// Decide one session trigger.
///
/// `overwrite` carries explicit parameters (from a direct user request),
/// `user_settings` the stored preferences, `entitlement` the licensing
/// collaborator's answer. A demo request bypasses every piece of
/// bookkeeping, including the timer restart; otherwise a session needs an
/// `Active` entitlement (fail-closed on `Failed`, with an alert), the
/// bookkeeping runs exactly when the session is granted, and the timer is
/// restarted exactly once whether or not a session starts.
pub fn plan_session(
    overwrite: Option<SessionStartEvent>,
    user_settings: Option<UserSessionSettings>,
    entitlement: EntitlementCheck,
) -> (p: SessionPlan)
    ensures
        p.restart_timer == !is_demo_request(overwrite),
        p.increment_session_count == (!is_demo_request(overwrite) && entitlement is Active),
        p.send_tracking == (!is_demo_request(overwrite) && entitlement is Active),
        p.alert_license_failure == (!is_demo_request(overwrite) && entitlement is Failed),
        (is_demo_request(overwrite) || entitlement is Active) ==> p.outcome
            == SessionOutcome::Start(resolved_session(overwrite, user_settings)),
        (!is_demo_request(overwrite) && !(entitlement is Active)) ==> p.outcome
            == SessionOutcome::RedirectToPayment,
{
    let demo = match &overwrite {
        Some(s) => s.demo_mode,
        None => false,
    };
    let active = matches!(entitlement, EntitlementCheck::Active);
    let failed = matches!(entitlement, EntitlementCheck::Failed);
    let event = match overwrite {
        Some(s) => s,
        None => match user_settings {
            Some(u) => SessionStartEvent {
                sip_size: u.sip_size,
                selected_drink_character: u.character,
                demo_mode: false,
            },
            None => SessionStartEvent {
                sip_size: SipSize::BigSip,
                selected_drink_character: DrinkCharacter::YoungWoman,
                demo_mode: false,
            },
        },
    };
    SessionPlan {
        outcome: if demo || active {
            SessionOutcome::Start(event)
        } else {
            SessionOutcome::RedirectToPayment
        },
        increment_session_count: !demo && active,
        send_tracking: !demo && active,
        alert_license_failure: !demo && failed,
        restart_timer: !demo,
    }
}

/// What ending a session shows next: nothing after a demo; otherwise the
/// feedback prompt exactly when it is due and no update prompt was shown.
/// `updater_visible` is the update collaborator's report of whether it put
/// its prompt up.
pub fn feedback_after_session(demo_mode: bool, ask_for_feedback: bool, updater_visible: bool) -> (
    show: bool)
    ensures
        show == (!demo_mode && ask_for_feedback && !updater_visible),
        show ==> !updater_visible,
{
    !demo_mode && ask_for_feedback && !updater_visible
}

/// Truncating division of `d` by the seconds in a day: whole days, rounded
/// toward zero, as a calendar library reports the days in a time span.
pub open spec fn whole_days(d: int) -> int {
    if d >= 0 {
        d / 86400
    } else {
        -((-d) / 86400)
    }
}

/// The number of calendar days a span touches, counted inclusively: the
/// whole days between the two timestamps (seconds since a common epoch),
/// plus one for the day the span starts on.
pub fn days_between(start: i64, end: i64) -> (days: i64)
    requires
        -i64::MAX <= end - start <= i64::MAX,
    ensures
        days == whole_days(end - start) + 1,
{
    let diff: i64 = end - start;
    let whole: i64 = if diff >= 0 {
        ((diff as u64) / 86400u64) as i64
    } else {
        let neg: u64 = (-diff) as u64;
        -((neg / 86400u64) as i64)
    };
    whole + 1
}

} // verus!
