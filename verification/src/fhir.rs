//! The clinical-record rendering of sensor events: observation resources
//! with one component per measured quantity, and bundles of observations.

use vstd::prelude::*;
use crate::reading::{spec_alert_label, SensorEvent};
use crate::text::{append_i64, spec_i64_str};
use crate::timefmt::{max_rfc3339_secs, rfc3339_of, rfc3339_utc};

verus! {

#[derive(Debug, Clone)]
pub struct FhirCoding {
    pub system: String,
    pub code: String,
    pub display: String,
}

#[derive(Debug, Clone)]
pub struct FhirCodeableConcept {
    pub coding: Vec<FhirCoding>,
    pub text: Option<String>,
}

/// A measured quantity; the value is carried in hundredths of its unit.
#[derive(Debug, Clone)]
pub struct FhirQuantity {
    pub value_centi: i64,
    pub unit: String,
    pub system: String,
    pub code: String,
}

#[derive(Debug, Clone)]
pub struct FhirReference {
    pub reference: String,
    pub display: Option<String>,
}

#[derive(Debug, Clone)]
pub struct FhirObservationComponent {
    pub code: FhirCodeableConcept,
    pub value_quantity: Option<FhirQuantity>,
    pub value_boolean: Option<bool>,
    pub value_integer: Option<i32>,
    pub value_string: Option<String>,
}

#[derive(Debug, Clone)]
pub struct FhirObservation {
    pub resource_type: String,
    pub id: String,
    pub status: String,
    pub category: Vec<FhirCodeableConcept>,
    pub code: FhirCodeableConcept,
    pub subject: Option<FhirReference>,
    pub effective_date_time: String,
    pub issued: String,
    pub component: Vec<FhirObservationComponent>,
    pub interpretation: Option<Vec<FhirCodeableConcept>>,
}

#[derive(Debug, Clone)]
pub struct FhirBundleEntry {
    pub full_url: String,
    pub resource: FhirObservation,
}

#[derive(Debug, Clone)]
pub struct FhirBundle {
    pub resource_type: String,
    pub id: String,
    pub bundle_type: String,
    pub total: u32,
    pub timestamp: String,
    pub entry: Vec<FhirBundleEntry>,
}

/// Relies on uuid's `Uuid::new_v4` and its hyphenated rendering, which is
/// always thirty-six characters. The value itself is random, so nothing
/// more is claimed of it.
#[verifier::external_body]
fn fresh_uuid_string() -> (r: String)
    ensures
        r@.len() == 36,
{
    uuid::Uuid::new_v4().to_string()
}

/// What an observation rendered from an event must hold: the fixed resource
/// framing, the event's timestamp in both date fields, one component each
/// for temperature, motion and sound carrying the event's values, and an
/// alert component with interpretation exactly when the event alerts.
pub open spec fn observation_matches(obs: FhirObservation, e: SensorEvent) -> bool {
    &&& obs.resource_type@ == "Observation"@
    &&& obs.status@ == "final"@
    &&& obs.effective_date_time@ == rfc3339_of(e.reading.timestamp as int)
    &&& obs.issued@ == rfc3339_of(e.reading.timestamp as int)
    &&& obs.category@.len() == 1
    &&& obs.category@[0].coding@.len() == 1
    &&& obs.category@[0].coding@[0].code@ == "vital-signs"@
    &&& obs.code.coding@.len() == 1
    &&& obs.code.coding@[0].code@ == "85353-1"@
    &&& obs.component@.len() == (if e.alert is NoAlert {
        3int
    } else {
        4int
    })
    &&& obs.component@[0].code.coding@.len() == 1
    &&& obs.component@[0].code.coding@[0].code@ == "8310-5"@
    &&& (obs.component@[0].value_quantity matches Some(q) && q.value_centi
        == e.reading.temperature_centi && q.unit@ == "Cel"@)
    &&& obs.component@[1].code.coding@.len() == 1
    &&& obs.component@[1].code.coding@[0].code@ == "52821000"@
    &&& obs.component@[1].value_boolean == Some(e.reading.motion)
    &&& obs.component@[2].code.coding@.len() == 1
    &&& obs.component@[2].code.coding@[0].code@ == "89020-2"@
    &&& obs.component@[2].value_integer == Some(e.reading.sound_level)
    &&& (e.alert is NoAlert <==> obs.interpretation is None)
    &&& (!(e.alert is NoAlert) ==> (obs.component@[3].value_string matches Some(s) && Some(s@)
        == spec_alert_label(e.alert)))
    &&& (!(e.alert is NoAlert) ==> (obs.interpretation matches Some(cs) && cs@.len() == 1
        && cs@[0].coding@.len() == 1 && cs@[0].coding@[0].code@ == "AA"@))
    &&& obs.id@.len() > 12
    &&& obs.id@.subrange(0, 12) == "observation-"@
    &&& (e.id matches Some(i) ==> obs.id@ == "observation-"@ + spec_i64_str(i as int))
}

fn loinc_coding(code: &str, display: &str) -> (r: FhirCoding)
    ensures
        r.code@ == code@,
        r.display@ == display@,
        r.system@ == "http://loinc.org"@,
{
    FhirCoding {
        system: String::from_str("http://loinc.org"),
        code: String::from_str(code),
        display: String::from_str(display),
    }
}

fn concept_of(coding: FhirCoding, text: &str) -> (r: FhirCodeableConcept)
    ensures
        r.coding@.len() == 1,
        r.coding@[0] == coding,
        r.text matches Some(t) && t@ == text@,
{
    let mut cv: Vec<FhirCoding> = Vec::new();
    cv.push(coding);
    FhirCodeableConcept { coding: cv, text: Some(String::from_str(text)) }
}

impl SensorEvent {
    /// Renders the event as an observation resource. A persisted event is
    /// named after its identifier; one not yet durable is named under a
    /// fresh random identifier.
    pub fn to_fhir(&self, base_url: &str) -> (r: FhirObservation)
        requires
            0 <= self.reading.timestamp <= max_rfc3339_secs(),
        ensures
            observation_matches(r, *self),
    {
        proof {
            reveal_strlit("observation-");
        }
        let mut obs_id = String::from_str("observation-");
        match self.id {
            Some(i) => {
                append_i64(&mut obs_id, i);
            },
            None => {
                let u = fresh_uuid_string();
                obs_id.append(u.as_str());
            },
        }
        proof {
            assert(obs_id@.subrange(0, 12) =~= "observation-"@);
        }
        let timestamp = rfc3339_utc(self.reading.timestamp);

        let mut components: Vec<FhirObservationComponent> = Vec::new();
        components.push(
            FhirObservationComponent {
                code: concept_of(
                    loinc_coding("8310-5", "Body temperature"),
                    "Room Temperature",
                ),
                value_quantity: Some(
                    FhirQuantity {
                        value_centi: self.reading.temperature_centi,
                        unit: String::from_str("Cel"),
                        system: String::from_str("http://unitsofmeasure.org"),
                        code: String::from_str("Cel"),
                    },
                ),
                value_boolean: None,
                value_integer: None,
                value_string: None,
            },
        );
        let motion_coding = FhirCoding {
            system: String::from_str("http://snomed.info/sct"),
            code: String::from_str("52821000"),
            display: String::from_str("Motion detected"),
        };
        components.push(
            FhirObservationComponent {
                code: concept_of(motion_coding, "Motion Sensor"),
                value_quantity: None,
                value_boolean: Some(self.reading.motion),
                value_integer: None,
                value_string: None,
            },
        );
        components.push(
            FhirObservationComponent {
                code: concept_of(
                    loinc_coding("89020-2", "Sound level"),
                    "Ambient Sound Level",
                ),
                value_quantity: None,
                value_boolean: None,
                value_integer: Some(self.reading.sound_level),
                value_string: None,
            },
        );
        let alerting = !matches!(self.alert, crate::alert::AlertType::NoAlert);
        if alerting {
            let interp_coding = FhirCoding {
                system: String::from_str(
                    "http://terminology.hl7.org/CodeSystem/v3-ObservationInterpretation",
                ),
                code: String::from_str("AA"),
                display: String::from_str("Critical abnormal"),
            };
            let label = match self.alert.label() {
                Some(l) => l,
                None => String::new(),
            };
            components.push(
                FhirObservationComponent {
                    code: concept_of(interp_coding, "Alert Status"),
                    value_quantity: None,
                    value_boolean: None,
                    value_integer: None,
                    value_string: Some(label),
                },
            );
        }

        let interpretation: Option<Vec<FhirCodeableConcept>> = if alerting {
            let interp_coding = FhirCoding {
                system: String::from_str(
                    "http://terminology.hl7.org/CodeSystem/v3-ObservationInterpretation",
                ),
                code: String::from_str("AA"),
                display: String::from_str("Critical abnormal"),
            };
            let text = match self.alert {
                crate::alert::AlertType::Fall => "Possible fall detected",
                crate::alert::AlertType::Inactivity => "Patient inactivity alert",
                crate::alert::AlertType::NoAlert => "Normal",
            };
            let mut iv: Vec<FhirCodeableConcept> = Vec::new();
            iv.push(concept_of(interp_coding, text));
            Some(iv)
        } else {
            None
        };

        let mut category: Vec<FhirCodeableConcept> = Vec::new();
        let category_coding = FhirCoding {
            system: String::from_str(
                "http://terminology.hl7.org/CodeSystem/observation-category",
            ),
            code: String::from_str("vital-signs"),
            display: String::from_str("Vital Signs"),
        };
        category.push(
            FhirCodeableConcept { coding: vec_of_one(category_coding), text: None },
        );

        FhirObservation {
            resource_type: String::from_str("Observation"),
            id: obs_id,
            status: String::from_str("final"),
            category,
            code: concept_of(
                loinc_coding("85353-1", "Vital signs panel"),
                "Patient Room Monitoring Panel",
            ),
            subject: Some(
                FhirReference {
                    reference: String::from_str("Patient/room-101"),
                    display: Some(String::from_str("Room 101 Occupant")),
                },
            ),
            effective_date_time: timestamp.clone(),
            issued: timestamp,
            component: components,
            interpretation,
        }
    }
}

fn vec_of_one(c: FhirCoding) -> (r: Vec<FhirCoding>)
    ensures
        r@.len() == 1,
        r@[0] == c,
{
    let mut v: Vec<FhirCoding> = Vec::new();
    v.push(c);
    v
}

impl FhirBundle {
    /// Gathers the events into a search-result bundle, one observation per
    /// event in the given order, each entry addressed under the base URL.
    /// The bundle itself is named under a fresh random identifier and
    /// stamped with the moment of rendering.
    pub fn from_events(events: &Vec<SensorEvent>, base_url: &str) -> (r: FhirBundle)
        requires
            forall|i: int|
                0 <= i < events@.len() ==> 0 <= (#[trigger] events@[i]).reading.timestamp
                    <= max_rfc3339_secs(),
            events@.len() <= u32::MAX,
        ensures
            r.resource_type@ == "Bundle"@,
            r.bundle_type@ == "searchset"@,
            r.total == events@.len(),
            r.entry@.len() == events@.len(),
            forall|i: int|
                0 <= i < events@.len() ==> observation_matches(
                    (#[trigger] r.entry@[i]).resource,
                    events@[i],
                ),
            forall|i: int|
                0 <= i < events@.len() ==> (#[trigger] r.entry@[i]).full_url@ == base_url@
                    + "/Observation/"@ + r.entry@[i].resource.id@,
    {
        let n = events.len();
        let mut entries: Vec<FhirBundleEntry> = Vec::new();
        let mut i: usize = 0;
        while i < n
            invariant
                n == events@.len(),
                i <= n,
                entries@.len() == i,
                forall|j: int|
                    0 <= j < events@.len() ==> 0 <= (#[trigger] events@[j]).reading.timestamp
                        <= max_rfc3339_secs(),
                forall|j: int|
                    0 <= j < i ==> observation_matches(
                        (#[trigger] entries@[j]).resource,
                        events@[j],
                    ),
                forall|j: int|
                    0 <= j < i ==> (#[trigger] entries@[j]).full_url@ == base_url@
                        + "/Observation/"@ + entries@[j].resource.id@,
            decreases n - i,
        {
            let e = events[i];
            let obs = e.to_fhir(base_url);
            let mut full_url = String::from_str(base_url);
            full_url.append("/Observation/");
            full_url.append(obs.id.as_str());
            entries.push(FhirBundleEntry { full_url, resource: obs });
            i += 1;
        }
        let now = current_time_rfc3339();
        FhirBundle {
            resource_type: String::from_str("Bundle"),
            id: fresh_uuid_string(),
            bundle_type: String::from_str("searchset"),
            total: n as u32,
            timestamp: now,
            entry: entries,
        }
    }
}

/// Relies on chrono: `Utc::now().to_rfc3339()` renders the wall clock. The
/// moment depends on when the call runs, so nothing is claimed of the text.
#[verifier::external_body]
fn current_time_rfc3339() -> String {
    chrono::Utc::now().to_rfc3339()
}

} // verus!
