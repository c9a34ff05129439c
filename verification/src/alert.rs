//! Alert classification: the pure decision function over one sensor reading,
//! a settings snapshot, and the elapsed time since the last observed motion.

use vstd::prelude::*;

verus! {

/// The alert state assigned to a single reading.
#[derive(Debug, Clone, Copy, PartialEq, Eq, Structural)]
pub enum AlertType {
    NoAlert,
    Fall,
    Inactivity,
}

/// Threshold configuration shared between the classifier and the
/// administrative interface.
#[derive(Debug, Clone, Copy, PartialEq, Eq, Structural)]
pub struct MonitorSettings {
    pub inactivity_seconds: u64,
    pub sound_threshold: i32,
}

/// The classification rule, in decision order: motion together with sound
/// strictly above the threshold is a fall; otherwise, strictly more elapsed
/// seconds since the last motion than the inactivity limit is inactivity;
/// otherwise no alert.
pub open spec fn spec_alert(
    motion: bool,
    sound_level: int,
    sound_threshold: int,
    seconds_since_motion: int,
    inactivity_seconds: int,
) -> AlertType {
    if motion && sound_level > sound_threshold {
        AlertType::Fall
    } else if seconds_since_motion > inactivity_seconds {
        AlertType::Inactivity
    } else {
        AlertType::NoAlert
    }
}

/// Classify one reading. The result is a pure function of the five
/// arguments: equal inputs always give the equal alert.
pub fn detect_alert(
    motion: bool,
    sound_level: i32,
    sound_threshold: i32,
    seconds_since_motion: u64,
    inactivity_seconds: u64,
) -> (alert: AlertType)
    ensures
        alert == spec_alert(
            motion,
            sound_level as int,
            sound_threshold as int,
            seconds_since_motion as int,
            inactivity_seconds as int,
        ),
{
    if motion && sound_level > sound_threshold {
        AlertType::Fall
    } else if seconds_since_motion > inactivity_seconds {
        AlertType::Inactivity
    } else {
        AlertType::NoAlert
    }
}

/// Motion together with sound strictly above the threshold is a fall,
/// whatever the elapsed time since the last motion, even far past the
/// inactivity limit.
pub proof fn lemma_fall_has_precedence(
    sound_level: int,
    sound_threshold: int,
    seconds_since_motion: int,
    inactivity_seconds: int,
)
    requires
        sound_level > sound_threshold,
    ensures
        spec_alert(true, sound_level, sound_threshold, seconds_since_motion, inactivity_seconds)
            == AlertType::Fall,
{
}

/// A sound level exactly at the threshold is never a fall: the comparison is
/// strict.
pub proof fn lemma_sound_at_threshold_is_no_fall(
    motion: bool,
    sound_threshold: int,
    seconds_since_motion: int,
    inactivity_seconds: int,
)
    ensures
        spec_alert(motion, sound_threshold, sound_threshold, seconds_since_motion,
            inactivity_seconds) != AlertType::Fall,
{
}

/// The inactivity comparison is strict: for a reading that is no fall,
/// elapsed time equal to the inactivity limit gives no alert, while one
/// second more gives an inactivity alert.
pub proof fn lemma_inactivity_boundary(
    motion: bool,
    sound_level: int,
    sound_threshold: int,
    inactivity_seconds: int,
)
    requires
        !(motion && sound_level > sound_threshold),
    ensures
        spec_alert(motion, sound_level, sound_threshold, inactivity_seconds, inactivity_seconds)
            == AlertType::NoAlert,
        spec_alert(motion, sound_level, sound_threshold, inactivity_seconds + 1,
            inactivity_seconds) == AlertType::Inactivity,
{
}

} // verus!
