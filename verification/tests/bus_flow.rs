use drinknow_core::bus::EventBus;
use drinknow_core::timer::{CountdownEvent, TimerStatus};

fn ev(status: TimerStatus) -> CountdownEvent {
    CountdownEvent { status }
}

#[test]
fn every_subscriber_sees_the_same_ordered_sequence() {
    let mut bus = EventBus::new();
    let a = bus.subscribe();
    let b = bus.subscribe();

    bus.publish(ev(TimerStatus::Active(3)));
    bus.publish(ev(TimerStatus::Active(2)));
    bus.publish(ev(TimerStatus::Finished));

    let seen_a = bus.take_events(a);
    let seen_b = bus.take_events(b);
    let expected = vec![
        ev(TimerStatus::Active(3)),
        ev(TimerStatus::Active(2)),
        ev(TimerStatus::Finished),
    ];
    assert_eq!(seen_a, expected);
    assert_eq!(seen_b, expected);
}

#[test]
fn draining_empties_the_queue_without_touching_others() {
    let mut bus = EventBus::new();
    let a = bus.subscribe();
    let b = bus.subscribe();

    bus.publish(ev(TimerStatus::Active(9)));
    assert_eq!(bus.take_events(a), vec![ev(TimerStatus::Active(9))]);
    assert_eq!(bus.take_events(a), Vec::new());

    // A slow subscriber still finds everything, in order.
    bus.publish(ev(TimerStatus::Active(8)));
    assert_eq!(
        bus.take_events(b),
        vec![ev(TimerStatus::Active(9)), ev(TimerStatus::Active(8))]
    );
}

#[test]
fn unsubscribed_slot_receives_nothing_and_ids_stay_stable() {
    let mut bus = EventBus::new();
    let a = bus.subscribe();
    let b = bus.subscribe();
    assert_ne!(a, b);

    bus.publish(ev(TimerStatus::Active(5)));
    bus.unsubscribe(a);
    bus.publish(ev(TimerStatus::Active(4)));

    // The surviving subscriber's identifier and queue are unaffected.
    assert_eq!(
        bus.take_events(b),
        vec![ev(TimerStatus::Active(5)), ev(TimerStatus::Active(4))]
    );

    // A new subscriber starts with an empty queue.
    let c = bus.subscribe();
    bus.publish(ev(TimerStatus::Finished));
    assert_eq!(bus.take_events(c), vec![ev(TimerStatus::Finished)]);
}
