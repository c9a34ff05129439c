//! The sensor data model: one sampled reading, and an event — a reading
//! annotated with its classification and an optional durable identifier.

use vstd::prelude::*;
use crate::alert::AlertType;
use crate::text::str_eq;

verus! {

/// One sampled measurement tuple from the device.
///
/// The temperature is carried in hundredths of a degree Celsius, so the
/// whole reading is exact integer data; the timestamp counts Unix seconds.
#[derive(Debug, Clone, Copy, PartialEq, Eq, Structural)]
pub struct SensorReading {
    pub temperature_centi: i64,
    pub motion: bool,
    pub sound_level: i32,
    pub timestamp: i64,
}

/// A reading annotated with its alert classification and, once persisted,
/// a durable identifier. The identifier is absent until the store assigns
/// it; it is assigned exactly once and never reused.
#[derive(Debug, Clone, Copy, PartialEq, Eq, Structural)]
pub struct SensorEvent {
    pub id: Option<i64>,
    pub reading: SensorReading,
    pub alert: AlertType,
}

/// The storage code of an alert state.
pub open spec fn spec_alert_code(a: AlertType) -> Seq<char> {
    match a {
        AlertType::NoAlert => "none"@,
        AlertType::Fall => "fall"@,
        AlertType::Inactivity => "inactivity"@,
    }
}

/// The live-stream label of an alert state; no alert carries no label.
pub open spec fn spec_alert_label(a: AlertType) -> Option<Seq<char>> {
    match a {
        AlertType::NoAlert => None,
        AlertType::Fall => Some("FALL_DETECTED"@),
        AlertType::Inactivity => Some("INACTIVITY_ALERT"@),
    }
}

impl AlertType {
    /// The code under which this alert state is stored.
    pub fn code(&self) -> (r: String)
        ensures
            r@ == spec_alert_code(*self),
    {
        match self {
            AlertType::NoAlert => String::from_str("none"),
            AlertType::Fall => String::from_str("fall"),
            AlertType::Inactivity => String::from_str("inactivity"),
        }
    }

    /// Reads an alert state back from its storage code; anything that is
    /// neither the fall nor the inactivity code counts as no alert.
    pub fn from_code(s: &str) -> (r: AlertType)
        ensures
            r == (if s@ == spec_alert_code(AlertType::Fall) {
                AlertType::Fall
            } else if s@ == spec_alert_code(AlertType::Inactivity) {
                AlertType::Inactivity
            } else {
                AlertType::NoAlert
            }),
    {
        if str_eq(s, "fall") {
            AlertType::Fall
        } else if str_eq(s, "inactivity") {
            AlertType::Inactivity
        } else {
            AlertType::NoAlert
        }
    }

    /// The label attached to live-stream messages, present exactly for the
    /// two alerting states.
    pub fn label(&self) -> (r: Option<String>)
        ensures
            match r {
                Some(l) => spec_alert_label(*self) == Some(l@),
                None => spec_alert_label(*self) is None,
            },
    {
        match self {
            AlertType::NoAlert => None,
            AlertType::Fall => Some(String::from_str("FALL_DETECTED")),
            AlertType::Inactivity => Some(String::from_str("INACTIVITY_ALERT")),
        }
    }
}

} // verus!
