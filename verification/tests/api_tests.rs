//! The administrative payloads and handler decisions, and the analysis of
//! stored periods.

use patient_monitor::activity::ActivityLevel;
use patient_monitor::alert::AlertType;
use patient_monitor::api::{
    clamp_observation_limit, default_limit, sleep_window, ApiError, SerialConfig, SummaryResponse,
};
use patient_monitor::reading::{SensorEvent, SensorReading};
use patient_monitor::store::{AlertSummary, EventStore};

#[test]
fn test_default_limit_is_fifty() {
    assert_eq!(default_limit(), 50);
}

#[test]
fn test_clamp_observation_limit() {
    assert_eq!(clamp_observation_limit(0), 1);
    assert_eq!(clamp_observation_limit(1), 1);
    assert_eq!(clamp_observation_limit(50), 50);
    assert_eq!(clamp_observation_limit(1000), 1000);
    assert_eq!(clamp_observation_limit(5000), 1000);
}

#[test]
fn test_api_error_payloads() {
    let nf = ApiError::not_found("Observation 7 not found");
    assert_eq!(nf.error, "not_found");
    assert_eq!(nf.message, "Observation 7 not found");

    let ie = ApiError::internal_error("Failed to retrieve observations");
    assert_eq!(ie.error, "internal_error");
    assert_eq!(ie.message, "Failed to retrieve observations");
}

#[test]
fn test_summary_response_shape() {
    let summary = AlertSummary { total_readings: 100, fall_alerts: 5, inactivity_alerts: 10 };
    let r = SummaryResponse::from_summary(&summary, String::from("2024-01-15T10:30:00+00:00"));
    assert_eq!(r.total_readings, 100);
    assert_eq!(r.fall_alerts, 5);
    assert_eq!(r.inactivity_alerts, 10);
    assert_eq!(r.system_status, "active");
    assert_eq!(r.last_updated, "2024-01-15T10:30:00+00:00");
}

#[test]
fn test_sleep_window_same_day() {
    let (s, e) = sleep_window(86400 * 10, 1, 6);
    assert_eq!(s, 86400 * 10 + 3600);
    assert_eq!(e, 86400 * 10 + 6 * 3600);
}

#[test]
fn test_sleep_window_rolls_over_midnight() {
    let (s, e) = sleep_window(86400 * 10, 22, 6);
    assert_eq!(s, 86400 * 10 + 22 * 3600);
    assert_eq!(e, 86400 * 11 + 6 * 3600);
}

#[test]
fn test_serial_config_default() {
    let c = SerialConfig::default();
    assert_eq!(c.port, "COM3");
    assert_eq!(c.baud_rate, 9600);
    assert_eq!(c.sound_threshold, 150);
    assert_eq!(c.inactivity_seconds, 300);
}

fn ev(ts: i64, temp_centi: i64, motion: bool, sound: i32, alert: AlertType) -> SensorEvent {
    SensorEvent {
        id: None,
        reading: SensorReading { temperature_centi: temp_centi, motion, sound_level: sound, timestamp: ts },
        alert,
    }
}

#[test]
fn test_activity_analysis_of_period() {
    let mut store = EventStore::new();
    let base: i64 = 1000000;
    store.insert_reading(&ev(base + 60, 2000, false, 10, AlertType::NoAlert));
    store.insert_reading(&ev(base + 120, 2100, true, 200, AlertType::Fall));
    store.insert_reading(&ev(base + 180, 2200, false, 30, AlertType::NoAlert));
    store.insert_reading(&ev(base + 900, 2300, false, 40, AlertType::NoAlert));

    let a = store.get_activity_analysis(base, base + 1000);
    assert_eq!(a.total_readings, 4);
    assert_eq!(a.motion_readings, 1);
    assert_eq!(a.activity_score_milli, 25000);
    assert_eq!(a.activity_level, ActivityLevel::LightSleep);
    assert_eq!(a.sum_temperature_centi, 2000 + 2100 + 2200 + 2300);
    assert_eq!(a.sum_sound_level, 10 + 200 + 30 + 40);
    assert_eq!(a.max_sound_level, 200);
    assert_eq!(a.fall_alerts, 1);
    // The still stretch opens at base+180 and runs to the period's end.
    assert_eq!(a.longest_still_period_mins, (1000 - 180) / 60);
}

#[test]
fn test_activity_analysis_empty_period() {
    let store = EventStore::new();
    let a = store.get_activity_analysis(0, 1000);
    assert_eq!(a.total_readings, 0);
    assert_eq!(a.activity_score_milli, 0);
    assert_eq!(a.activity_level, ActivityLevel::DeepSleep);
    assert_eq!(a.longest_still_period_mins, 0);
}

#[test]
fn test_range_query_newest_first() {
    let mut store = EventStore::new();
    store.insert_reading(&ev(100, 2000, false, 1, AlertType::NoAlert));
    store.insert_reading(&ev(200, 2100, false, 2, AlertType::NoAlert));
    store.insert_reading(&ev(900, 2200, false, 3, AlertType::NoAlert));

    let r = store.get_readings_in_range(150, 950);
    assert_eq!(r.len(), 2);
    assert_eq!(r[0].reading.sound_level, 3);
    assert_eq!(r[1].reading.sound_level, 2);
}

#[test]
fn test_hourly_activity_buckets() {
    let mut store = EventStore::new();
    let day: i64 = 86400 * 100;
    // Two readings in hour zero, one with motion; one reading in hour two.
    store.insert_reading(&ev(day + 10, 2000, true, 10, AlertType::NoAlert));
    store.insert_reading(&ev(day + 20, 2000, false, 30, AlertType::NoAlert));
    store.insert_reading(&ev(day + 2 * 3600 + 5, 2000, false, 50, AlertType::NoAlert));

    let hours = store.get_hourly_activity(day);
    assert_eq!(hours.len(), 2);
    assert_eq!(hours[0].hour, 0);
    assert_eq!(hours[0].readings, 2);
    assert_eq!(hours[0].motion_readings, 1);
    assert_eq!(hours[0].sum_sound_level, 40);
    assert_eq!(hours[0].activity_score_milli, 50000);
    assert_eq!(hours[1].hour, 2);
    assert_eq!(hours[1].readings, 1);
    assert_eq!(hours[1].motion_readings, 0);
}

#[test]
fn test_longest_still_period_between_motions() {
    let mut store = EventStore::new();
    let base: i64 = 500000;
    store.insert_reading(&ev(base, 2000, true, 10, AlertType::NoAlert));
    store.insert_reading(&ev(base + 60, 2000, false, 10, AlertType::NoAlert));
    store.insert_reading(&ev(base + 1860, 2000, true, 10, AlertType::NoAlert));
    store.insert_reading(&ev(base + 1920, 2000, true, 10, AlertType::NoAlert));

    let a = store.get_activity_analysis(base, base + 2000);
    // Still from base+60 until motion at base+1860: thirty minutes.
    assert_eq!(a.longest_still_period_mins, 30);
}
