//! The classifying loop: watermark sequencing and the line-to-delivery
//! path through the store and the hub.

use patient_monitor::alert::{AlertType, MonitorSettings};
use patient_monitor::hub::SensorBroadcaster;
use patient_monitor::monitor::MotionTracker;
use patient_monitor::store::EventStore;

const SETTINGS: MonitorSettings = MonitorSettings { inactivity_seconds: 300, sound_threshold: 150 };

#[test]
fn test_motion_flip_classified_against_prior_watermark() {
    let mut tracker = MotionTracker::new(1000);

    // No motion, 400 seconds past the watermark: inactivity.
    let first = tracker.ingest_line("22.0,0,10", 1400, &SETTINGS).unwrap();
    assert_eq!(first.alert, AlertType::Inactivity);

    // The reading that reintroduces motion is still measured against the
    // old watermark of 1000, not against its own timestamp.
    let second = tracker.ingest_line("22.0,1,10", 1500, &SETTINGS).unwrap();
    assert_eq!(second.alert, AlertType::Inactivity);

    // Only now does the watermark stand at 1500.
    let third = tracker.ingest_line("22.0,0,10", 1600, &SETTINGS).unwrap();
    assert_eq!(third.alert, AlertType::NoAlert);
}

#[test]
fn test_malformed_line_leaves_watermark_untouched() {
    let mut tracker = MotionTracker::new(1000);
    assert!(tracker.ingest_line("garbage", 1400, &SETTINGS).is_none());
    let ok = tracker.ingest_line("22.0,0,10", 1200, &SETTINGS).unwrap();
    assert_eq!(ok.alert, AlertType::NoAlert);
}

#[test]
fn test_end_to_end_two_readings() {
    let t0: i64 = 1705314600;
    let mut tracker = MotionTracker::new(t0);
    let mut store = EventStore::new();
    let mut hub = SensorBroadcaster::new(100);
    let viewer = hub.subscribe();

    let lines = ["20.0,0,10", "21.0,1,200"];
    let mut at = t0;
    for line in lines {
        at += 10;
        if let Some(mut event) = tracker.ingest_line(line, at, &SETTINGS) {
            let id = store.insert_reading(&event);
            event.id = Some(id);
            hub.broadcast(event);
        }
    }

    let first = hub.try_recv(viewer).unwrap();
    assert_eq!(first.alert, AlertType::NoAlert);
    assert_eq!(first.reading.temperature_centi, 2000);
    assert_eq!(first.id, Some(1));

    let second = hub.try_recv(viewer).unwrap();
    assert_eq!(second.alert, AlertType::Fall);
    assert_eq!(second.reading.temperature_centi, 2100);
    assert_eq!(second.id, Some(2));

    assert!(hub.try_recv(viewer).is_none());
    assert_eq!(store.count(), 2);
}
