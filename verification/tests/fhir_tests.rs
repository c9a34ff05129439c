//! The sensor data model and its clinical-record rendering. Temperatures
//! are written in hundredths of a degree.

use patient_monitor::alert::AlertType;
use patient_monitor::fhir::FhirBundle;
use patient_monitor::reading::{SensorEvent, SensorReading};

const TS: i64 = 1705314600;

#[test]
fn test_sensor_reading_creation() {
    let reading = SensorReading {
        temperature_centi: 2350,
        motion: true,
        sound_level: 150,
        timestamp: TS,
    };

    assert_eq!(reading.temperature_centi, 2350);
    assert_eq!(reading.motion, true);
    assert_eq!(reading.sound_level, 150);
}

#[test]
fn test_sensor_event_with_no_alert() {
    let event = SensorEvent {
        id: Some(1),
        reading: SensorReading {
            temperature_centi: 2200,
            motion: false,
            sound_level: 30,
            timestamp: TS,
        },
        alert: AlertType::NoAlert,
    };

    assert_eq!(event.alert, AlertType::NoAlert);
    assert_eq!(event.id, Some(1));
}

#[test]
fn test_sensor_event_with_fall_alert() {
    let event = SensorEvent {
        id: Some(2),
        reading: SensorReading {
            temperature_centi: 2300,
            motion: true,
            sound_level: 250,
            timestamp: TS,
        },
        alert: AlertType::Fall,
    };

    assert_eq!(event.alert, AlertType::Fall);
}

#[test]
fn test_sensor_event_with_inactivity_alert() {
    let event = SensorEvent {
        id: Some(3),
        reading: SensorReading {
            temperature_centi: 2150,
            motion: false,
            sound_level: 20,
            timestamp: TS,
        },
        alert: AlertType::Inactivity,
    };

    assert_eq!(event.alert, AlertType::Inactivity);
}

#[test]
fn test_temperature_range_valid() {
    let reading = SensorReading {
        temperature_centi: 2450,
        motion: false,
        sound_level: 40,
        timestamp: TS,
    };

    assert!(reading.temperature_centi >= 1500 && reading.temperature_centi <= 3500);
}

#[test]
fn test_sound_level_non_negative() {
    let reading = SensorReading {
        temperature_centi: 2300,
        motion: true,
        sound_level: 0,
        timestamp: TS,
    };

    assert!(reading.sound_level >= 0);
}

#[test]
fn test_alert_type_equality() {
    assert_eq!(AlertType::NoAlert, AlertType::NoAlert);
    assert_eq!(AlertType::Fall, AlertType::Fall);
    assert_eq!(AlertType::Inactivity, AlertType::Inactivity);
    assert_ne!(AlertType::Fall, AlertType::NoAlert);
    assert_ne!(AlertType::Fall, AlertType::Inactivity);
}

fn sample_event(id: Option<i64>, alert: AlertType) -> SensorEvent {
    SensorEvent {
        id,
        reading: SensorReading {
            temperature_centi: 2350,
            motion: true,
            sound_level: 45,
            timestamp: TS,
        },
        alert,
    }
}

#[test]
fn test_observation_framing_and_components() {
    let obs = sample_event(Some(1), AlertType::NoAlert).to_fhir("http://localhost:8080");

    assert_eq!(obs.resource_type, "Observation");
    assert_eq!(obs.id, "observation-1");
    assert_eq!(obs.status, "final");
    assert_eq!(obs.category.len(), 1);
    assert_eq!(obs.category[0].coding[0].code, "vital-signs");
    assert_eq!(obs.code.coding[0].code, "85353-1");
    assert_eq!(obs.code.coding[0].system, "http://loinc.org");
    assert_eq!(obs.effective_date_time, "2024-01-15T10:30:00+00:00");
    assert_eq!(obs.issued, "2024-01-15T10:30:00+00:00");

    assert_eq!(obs.component.len(), 3);
    let temp = &obs.component[0];
    assert_eq!(temp.code.coding[0].code, "8310-5");
    let q = temp.value_quantity.as_ref().unwrap();
    assert_eq!(q.value_centi, 2350);
    assert_eq!(q.unit, "Cel");
    let motion = &obs.component[1];
    assert_eq!(motion.code.coding[0].code, "52821000");
    assert_eq!(motion.value_boolean, Some(true));
    let sound = &obs.component[2];
    assert_eq!(sound.code.coding[0].code, "89020-2");
    assert_eq!(sound.value_integer, Some(45));
    assert!(obs.interpretation.is_none());
}

#[test]
fn test_observation_alert_component() {
    let obs = sample_event(Some(7), AlertType::Fall).to_fhir("http://localhost:8080");

    assert_eq!(obs.component.len(), 4);
    let alert = &obs.component[3];
    assert_eq!(alert.value_string.as_deref(), Some("FALL_DETECTED"));
    let interp = obs.interpretation.as_ref().unwrap();
    assert_eq!(interp.len(), 1);
    assert_eq!(interp[0].coding[0].code, "AA");
}

#[test]
fn test_observation_without_id_gets_uuid_name() {
    let obs = sample_event(None, AlertType::NoAlert).to_fhir("http://localhost:8080");

    assert!(obs.id.starts_with("observation-"));
    assert_eq!(obs.id.len(), "observation-".len() + 36);
}

#[test]
fn test_bundle_from_events() {
    let events = vec![
        sample_event(Some(1), AlertType::NoAlert),
        sample_event(Some(2), AlertType::Fall),
    ];
    let bundle = FhirBundle::from_events(&events, "http://localhost:8080");

    assert_eq!(bundle.resource_type, "Bundle");
    assert_eq!(bundle.bundle_type, "searchset");
    assert_eq!(bundle.total, 2);
    assert_eq!(bundle.entry.len(), 2);
    assert_eq!(bundle.entry[0].resource.id, "observation-1");
    assert_eq!(
        bundle.entry[0].full_url,
        "http://localhost:8080/Observation/observation-1"
    );
    assert_eq!(bundle.entry[1].resource.id, "observation-2");
}

#[test]
fn test_bundle_empty_events() {
    let events: Vec<SensorEvent> = Vec::new();
    let bundle = FhirBundle::from_events(&events, "http://localhost:8080");

    assert_eq!(bundle.total, 0);
    assert_eq!(bundle.entry.len(), 0);
}
