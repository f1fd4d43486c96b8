use drinknow_core::timer::{
    origin_kind, origin_priority, CountdownEvent, CountdownTimer, OriginKind, PauseOrigin,
    TimerRequest, TimerStatus,
};

#[test]
fn start_and_five_ticks() {
    let mut t = CountdownTimer::new(300);
    assert_eq!(t.timer_status(), TimerStatus::NotStarted(300));
    let evt = t.start(300);
    assert_eq!(
        evt,
        Some(CountdownEvent { status: TimerStatus::Active(300) })
    );
    for _ in 0..5 {
        let e = t.tick();
        assert!(e.is_some());
    }
    assert_eq!(t.timer_status(), TimerStatus::Active(295));
}

#[test]
fn pause_overwrite_and_generic_resume() {
    let mut t = CountdownTimer::new(300);
    t.start(300);
    for _ in 0..5 {
        t.tick();
    }
    assert_eq!(t.timer_status(), TimerStatus::Active(295));

    let evt = t.pause(PauseOrigin::Idle);
    assert_eq!(
        evt,
        Some(CountdownEvent { status: TimerStatus::Paused(PauseOrigin::Idle, 295) })
    );

    // User outranks Idle: the origin is overwritten, the remaining seconds kept.
    let evt = t.pause(PauseOrigin::User);
    assert_eq!(
        evt,
        Some(CountdownEvent { status: TimerStatus::Paused(PauseOrigin::User, 295) })
    );

    let evt = t.resume();
    assert_eq!(
        evt,
        Some(CountdownEvent { status: TimerStatus::Active(295) })
    );
}

#[test]
fn repeated_idle_pause_is_idempotent() {
    let mut t = CountdownTimer::new(100);
    t.start(100);
    assert_eq!(t.timer_status(), TimerStatus::Active(100));

    let first = t.pause(PauseOrigin::Idle);
    assert_eq!(
        first,
        Some(CountdownEvent { status: TimerStatus::Paused(PauseOrigin::Idle, 100) })
    );
    assert_eq!(t.timer_status(), TimerStatus::Paused(PauseOrigin::Idle, 100));

    // Same origin again: no change, no drift, no new event.
    let second = t.pause(PauseOrigin::Idle);
    assert_eq!(second, None);
    assert_eq!(t.timer_status(), TimerStatus::Paused(PauseOrigin::Idle, 100));
}

#[test]
fn lower_priority_pause_does_not_overwrite() {
    let mut t = CountdownTimer::new(60);
    t.start(60);
    t.pause(PauseOrigin::PreventSleep(1000));
    assert_eq!(
        t.timer_status(),
        TimerStatus::Paused(PauseOrigin::PreventSleep(1000), 60)
    );

    assert_eq!(t.pause(PauseOrigin::User), None);
    assert_eq!(t.pause(PauseOrigin::Idle), None);
    assert_eq!(
        t.timer_status(),
        TimerStatus::Paused(PauseOrigin::PreventSleep(1000), 60)
    );
}

#[test]
fn finished_fires_exactly_once_then_restart() {
    let mut t = CountdownTimer::new(300);
    t.start(300);
    // Run the countdown down to one remaining second.
    for _ in 0..299 {
        t.tick();
    }
    assert_eq!(t.timer_status(), TimerStatus::Active(1));

    let evt = t.tick();
    assert_eq!(evt, Some(CountdownEvent { status: TimerStatus::Finished }));

    // Later ticks find Finished and emit nothing.
    assert_eq!(t.tick(), None);
    assert_eq!(t.tick(), None);
    assert_eq!(t.timer_status(), TimerStatus::Finished);

    let evt = t.restart();
    assert_eq!(
        evt,
        Some(CountdownEvent { status: TimerStatus::Active(300) })
    );
}

#[test]
fn targeted_resume_matches_origin() {
    let mut t = CountdownTimer::new(50);
    t.start(50);
    t.pause(PauseOrigin::Idle);
    assert_eq!(t.timer_status(), TimerStatus::Paused(PauseOrigin::Idle, 50));

    let evt = t.pause(PauseOrigin::PreventSleep(7));
    assert_eq!(
        evt,
        Some(CountdownEvent { status: TimerStatus::Paused(PauseOrigin::PreventSleep(7), 50) })
    );

    // A targeted resume for a different origin is a no-op.
    assert_eq!(t.resume_origin(OriginKind::Idle), None);
    assert_eq!(
        t.timer_status(),
        TimerStatus::Paused(PauseOrigin::PreventSleep(7), 50)
    );

    // The matching one lifts the pause.
    let evt = t.resume_origin(OriginKind::PreventSleep);
    assert_eq!(
        evt,
        Some(CountdownEvent { status: TimerStatus::Active(50) })
    );
}

#[test]
fn stop_suppresses_every_later_event() {
    let mut t = CountdownTimer::new(10);
    t.start(10);
    t.stop();
    assert_eq!(t.tick(), None);
    assert_eq!(t.pause(PauseOrigin::User), None);
    assert_eq!(t.resume(), None);
    assert_eq!(t.restart(), None);
    assert_eq!(t.start(5), None);
    assert_eq!(t.change_duration(20), None);
    // The status is frozen as it stood when the timer was stopped.
    assert_eq!(t.timer_status(), TimerStatus::Active(10));
}

#[test]
fn start_is_rejected_while_running_or_paused() {
    let mut t = CountdownTimer::new(30);
    t.start(30);
    assert_eq!(t.start(99), None);
    assert_eq!(t.timer_status(), TimerStatus::Active(30));
    t.pause(PauseOrigin::User);
    assert_eq!(t.start(99), None);
    assert_eq!(t.timer_status(), TimerStatus::Paused(PauseOrigin::User, 30));
}

#[test]
fn change_duration_takes_effect_on_restart_only() {
    let mut t = CountdownTimer::new(120);
    t.start(120);
    t.tick();
    assert_eq!(t.timer_status(), TimerStatus::Active(119));

    // The running countdown is not truncated.
    assert_eq!(t.change_duration(30), None);
    assert_eq!(t.timer_status(), TimerStatus::Active(119));

    let evt = t.restart();
    assert_eq!(
        evt,
        Some(CountdownEvent { status: TimerStatus::Active(30) })
    );
}

#[test]
fn change_duration_updates_not_started_status() {
    let mut t = CountdownTimer::new(120);
    let evt = t.change_duration(45);
    assert_eq!(
        evt,
        Some(CountdownEvent { status: TimerStatus::NotStarted(45) })
    );
    let evt = t.start(45);
    assert_eq!(
        evt,
        Some(CountdownEvent { status: TimerStatus::Active(45) })
    );
}

#[test]
fn toggle_pauses_on_behalf_of_user_and_resumes() {
    let mut t = CountdownTimer::new(40);
    t.start(40);
    assert!(t.timer_status().is_running());

    let evt = t.toggle();
    assert_eq!(
        evt,
        Some(CountdownEvent { status: TimerStatus::Paused(PauseOrigin::User, 40) })
    );
    assert!(!t.timer_status().is_running());

    let evt = t.toggle();
    assert_eq!(
        evt,
        Some(CountdownEvent { status: TimerStatus::Active(40) })
    );

    // Toggling a timer that never started does nothing.
    let mut idle = CountdownTimer::new(40);
    assert_eq!(idle.toggle(), None);
    assert_eq!(idle.timer_status(), TimerStatus::NotStarted(40));
}

#[test]
fn apply_request_routes_pause_and_resume() {
    let mut t = CountdownTimer::new(25);
    t.start(25);
    let evt = t.apply_request(TimerRequest::Pause(PauseOrigin::Idle));
    assert_eq!(
        evt,
        Some(CountdownEvent { status: TimerStatus::Paused(PauseOrigin::Idle, 25) })
    );
    let evt = t.apply_request(TimerRequest::Resume(OriginKind::Idle));
    assert_eq!(
        evt,
        Some(CountdownEvent { status: TimerStatus::Active(25) })
    );
}

#[test]
fn priorities_rank_prevent_sleep_over_user_over_idle() {
    let idle = origin_priority(&PauseOrigin::Idle);
    let user = origin_priority(&PauseOrigin::User);
    let sleep = origin_priority(&PauseOrigin::PreventSleep(0));
    assert!(idle < user && user < sleep);

    assert_eq!(origin_kind(&PauseOrigin::Idle), OriginKind::Idle);
    assert_eq!(origin_kind(&PauseOrigin::User), OriginKind::User);
    assert_eq!(origin_kind(&PauseOrigin::PreventSleep(9)), OriginKind::PreventSleep);
}

#[test]
fn tick_on_zero_remaining_finishes() {
    let mut t = CountdownTimer::new(0);
    let evt = t.start(0);
    assert_eq!(evt, Some(CountdownEvent { status: TimerStatus::Active(0) }));
    let evt = t.tick();
    assert_eq!(evt, Some(CountdownEvent { status: TimerStatus::Finished }));
    assert_eq!(t.tick(), None);
}
