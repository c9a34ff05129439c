//! The broadcast hub's delivery rules: shared order, no replay, and lossy
//! isolation of a slow subscriber.

use patient_monitor::alert::AlertType;
use patient_monitor::hub::SensorBroadcaster;
use patient_monitor::reading::{SensorEvent, SensorReading};

fn event(sound: i32) -> SensorEvent {
    SensorEvent {
        id: None,
        reading: SensorReading {
            temperature_centi: 2300,
            motion: false,
            sound_level: sound,
            timestamp: 1705314600,
        },
        alert: AlertType::NoAlert,
    }
}

#[test]
fn test_all_subscribers_observe_publication_order() {
    let mut hub = SensorBroadcaster::new(10);
    let a = hub.subscribe();
    let b = hub.subscribe();

    hub.broadcast(event(1));
    hub.broadcast(event(2));
    hub.broadcast(event(3));

    for sub in [a, b] {
        assert_eq!(hub.try_recv(sub).unwrap().reading.sound_level, 1);
        assert_eq!(hub.try_recv(sub).unwrap().reading.sound_level, 2);
        assert_eq!(hub.try_recv(sub).unwrap().reading.sound_level, 3);
        assert!(hub.try_recv(sub).is_none());
    }
}

#[test]
fn test_no_history_replay_for_late_subscriber() {
    let mut hub = SensorBroadcaster::new(10);
    hub.broadcast(event(1));
    hub.broadcast(event(2));

    let late = hub.subscribe();
    assert!(hub.try_recv(late).is_none());

    hub.broadcast(event(3));
    assert_eq!(hub.try_recv(late).unwrap().reading.sound_level, 3);
}

#[test]
fn test_slow_subscriber_loses_only_its_own_oldest() {
    let mut hub = SensorBroadcaster::new(2);
    let slow = hub.subscribe();
    let fast = hub.subscribe();

    hub.broadcast(event(1));
    assert_eq!(hub.try_recv(fast).unwrap().reading.sound_level, 1);
    hub.broadcast(event(2));
    assert_eq!(hub.try_recv(fast).unwrap().reading.sound_level, 2);
    hub.broadcast(event(3));
    assert_eq!(hub.try_recv(fast).unwrap().reading.sound_level, 3);

    // The slow subscriber held at most two pending events, so the oldest
    // was dropped; what remains is still in publication order, and the
    // fast subscriber saw everything.
    assert_eq!(hub.try_recv(slow).unwrap().reading.sound_level, 2);
    assert_eq!(hub.try_recv(slow).unwrap().reading.sound_level, 3);
    assert!(hub.try_recv(slow).is_none());
}

#[test]
fn test_unsubscribe_frees_slot_and_leaves_others() {
    let mut hub = SensorBroadcaster::new(4);
    let a = hub.subscribe();
    let b = hub.subscribe();

    hub.broadcast(event(1));
    hub.unsubscribe(a);
    hub.broadcast(event(2));

    assert_eq!(hub.try_recv(b).unwrap().reading.sound_level, 1);
    assert_eq!(hub.try_recv(b).unwrap().reading.sound_level, 2);
}
