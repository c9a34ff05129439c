//! The classifying loop's state: the motion watermark, and the step that
//! turns one device line into a classified event.

use vstd::prelude::*;
use crate::alert::{detect_alert, spec_alert, MonitorSettings};
use crate::parse::{parse_line, spec_parse_line};
use crate::reading::{SensorEvent, SensorReading};

verus! {

/// The motion watermark: the last timestamp at which motion was observed.
/// It has a single writer, the classifying loop that owns it.
#[derive(Debug, Clone, Copy, PartialEq, Eq, Structural)]
pub struct MotionTracker {
    pub last_motion: i64,
}

/// One classification step: the reading is classified against the watermark
/// as it stands — elapsed time is the reading's timestamp minus the
/// watermark — and the watermark advances to the reading's timestamp
/// afterwards, exactly when the reading carries motion. The returned pair is
/// the alert and the new watermark.
pub open spec fn spec_observe(watermark: int, reading: SensorReading, settings: MonitorSettings) -> (
    crate::alert::AlertType,
    int,
) {
    (
        spec_alert(
            reading.motion,
            reading.sound_level as int,
            settings.sound_threshold as int,
            reading.timestamp - watermark,
            settings.inactivity_seconds as int,
        ),
        if reading.motion {
            reading.timestamp as int
        } else {
            watermark
        },
    )
}

impl MotionTracker {
    /// A tracker whose watermark starts at the given timestamp, as if motion
    /// had just been observed.
    pub fn new(start: i64) -> (t: MotionTracker)
        ensures
            t.last_motion == start,
    {
        MotionTracker { last_motion: start }
    }

    /// Classify one reading against the watermark's prior value, then
    /// advance the watermark. The reading that introduces motion is itself
    /// still measured against the old watermark; only later readings see its
    /// timestamp.
    pub fn observe(&mut self, reading: &SensorReading, settings: &MonitorSettings) -> (e:
        SensorEvent)
        requires
            0 <= old(self).last_motion <= reading.timestamp,
        ensures
            e.reading == *reading,
            e.id is None,
            (e.alert, final(self).last_motion as int) == spec_observe(
                old(self).last_motion as int,
                *reading,
                *settings,
            ),
    {
        let elapsed: u64 = (reading.timestamp - self.last_motion) as u64;
        let alert = detect_alert(
            reading.motion,
            reading.sound_level,
            settings.sound_threshold,
            elapsed,
            settings.inactivity_seconds,
        );
        if reading.motion {
            self.last_motion = reading.timestamp;
        }
        SensorEvent { id: None, reading: *reading, alert }
    }

    /// One step of the reader loop: a malformed line yields nothing and
    /// leaves the watermark untouched; a well-formed line is classified
    /// under the given settings snapshot and advances the watermark.
    pub fn ingest_line(&mut self, line: &str, timestamp: i64, settings: &MonitorSettings) -> (r:
        Option<SensorEvent>)
        requires
            0 <= old(self).last_motion <= timestamp,
        ensures
            match spec_parse_line(line@, timestamp) {
                Some(reading) => {
                    &&& r matches Some(e)
                    &&& e.reading == reading
                    &&& e.id is None
                    &&& (e.alert, final(self).last_motion as int) == spec_observe(
                        old(self).last_motion as int,
                        reading,
                        *settings,
                    )
                },
                None => r is None && *final(self) == *old(self),
            },
    {
        match parse_line(line, timestamp) {
            Some(reading) => Some(self.observe(&reading, settings)),
            None => None,
        }
    }
}

/// The motion-flip sequencing law: when a reading without motion is followed
/// by one with motion, the second is classified against the watermark the
/// first left behind — which the first did not move — and only after that
/// classification does the watermark take the second reading's timestamp.
pub proof fn lemma_motion_flip_uses_prior_watermark(
    watermark: int,
    first: SensorReading,
    second: SensorReading,
    settings: MonitorSettings,
)
    requires
        !first.motion,
        second.motion,
    ensures
        spec_observe(watermark, first, settings).1 == watermark,
        spec_observe(spec_observe(watermark, first, settings).1, second, settings).0 == spec_alert(
            true,
            second.sound_level as int,
            settings.sound_threshold as int,
            second.timestamp - watermark,
            settings.inactivity_seconds as int,
        ),
        spec_observe(spec_observe(watermark, first, settings).1, second, settings).1
            == second.timestamp,
{
}

} // verus!
