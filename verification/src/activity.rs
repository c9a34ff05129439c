//! Activity analysis over stored events: the motion score as a share of
//! readings (kept in thousandths of a percent, so all arithmetic is exact
//! integer work), the activity level and rest quality derived from it, the
//! longest still period, and per-hour breakdowns.

use vstd::prelude::*;
use crate::alert::AlertType;
use crate::reading::SensorEvent;
use crate::store::{count_alert, in_range, EventStore};

verus! {

/// The activity level a score falls in: below twenty percent deep sleep,
/// below forty light sleep, below sixty restless, above that active.
#[derive(Debug, Clone, Copy, PartialEq, Eq, Structural)]
pub enum ActivityLevel {
    DeepSleep,
    LightSleep,
    Restless,
    Active,
}

/// How many readings of the sequence carry motion.
pub open spec fn count_motion(s: Seq<SensorEvent>) -> int
    decreases s.len(),
{
    if s.len() == 0 {
        0
    } else {
        count_motion(s.drop_last()) + if s.last().reading.motion {
            1int
        } else {
            0int
        }
    }
}

/// The sum of the temperatures, in hundredths of a degree.
pub open spec fn sum_temp(s: Seq<SensorEvent>) -> int
    decreases s.len(),
{
    if s.len() == 0 {
        0
    } else {
        sum_temp(s.drop_last()) + s.last().reading.temperature_centi
    }
}

/// The sum of the sound levels.
pub open spec fn sum_sound(s: Seq<SensorEvent>) -> int
    decreases s.len(),
{
    if s.len() == 0 {
        0
    } else {
        sum_sound(s.drop_last()) + s.last().reading.sound_level
    }
}

/// The largest sound level, zero when there are no readings.
pub open spec fn max_sound(s: Seq<SensorEvent>) -> int
    decreases s.len(),
{
    if s.len() == 0 {
        0
    } else {
        let rest = max_sound(s.drop_last());
        if s.last().reading.sound_level > rest {
            s.last().reading.sound_level as int
        } else {
            rest
        }
    }
}

pub proof fn lemma_sum_temp_bound(s: Seq<SensorEvent>)
    ensures
        -(s.len() * 0x8000_0000_0000_0000) <= sum_temp(s) <= s.len() * 0x8000_0000_0000_0000,
    decreases s.len(),
{
    if s.len() > 0 {
        lemma_sum_temp_bound(s.drop_last());
    }
}

pub proof fn lemma_sum_sound_bound(s: Seq<SensorEvent>)
    ensures
        -(s.len() * 0x8000_0000) <= sum_sound(s) <= s.len() * 0x8000_0000,
    decreases s.len(),
{
    if s.len() > 0 {
        lemma_sum_sound_bound(s.drop_last());
    }
}

/// The events of `s` whose timestamps lie in the closed range, oldest
/// first: the stored order, filtered.
pub open spec fn events_in_range_asc(s: Seq<SensorEvent>, start: int, end: int) -> Seq<SensorEvent>
    decreases s.len(),
{
    if s.len() == 0 {
        Seq::empty()
    } else {
        let rest = events_in_range_asc(s.drop_last(), start, end);
        if in_range(s.last(), start, end) {
            rest.push(s.last())
        } else {
            rest
        }
    }
}

/// Every event of the filtered sequence lies in the range.
pub proof fn lemma_in_range_asc_elements(s: Seq<SensorEvent>, start: int, end: int)
    ensures
        events_in_range_asc(s, start, end).len() <= s.len(),
        forall|i: int|
            0 <= i < events_in_range_asc(s, start, end).len() ==> in_range(
                #[trigger] events_in_range_asc(s, start, end)[i],
                start,
                end,
            ),
    decreases s.len(),
{
    if s.len() > 0 {
        lemma_in_range_asc_elements(s.drop_last(), start, end);
    }
}

/// The motion score in thousandths of a percent: the share of readings
/// that carry motion, scaled by one hundred thousand; zero when there are
/// no readings.
pub open spec fn spec_activity_score_milli(motion_readings: int, total_readings: int) -> int {
    if total_readings == 0 {
        0
    } else {
        motion_readings * 100000 / total_readings
    }
}

/// Computes the motion score in thousandths of a percent.
pub fn calculate_activity_score(motion_readings: u64, total_readings: u64) -> (r: u128)
    ensures
        r as int == spec_activity_score_milli(motion_readings as int, total_readings as int),
{
    if total_readings == 0 {
        0
    } else {
        (motion_readings as u128) * 100000 / (total_readings as u128)
    }
}

/// The level a score in thousandths of a percent falls in.
pub open spec fn spec_activity_level(score_milli: int) -> ActivityLevel {
    if score_milli < 20000 {
        ActivityLevel::DeepSleep
    } else if score_milli < 40000 {
        ActivityLevel::LightSleep
    } else if score_milli < 60000 {
        ActivityLevel::Restless
    } else {
        ActivityLevel::Active
    }
}

/// Determines the activity level of a score in thousandths of a percent.
pub fn get_activity_level(score_milli: u128) -> (r: ActivityLevel)
    ensures
        r == spec_activity_level(score_milli as int),
{
    if score_milli < 20000 {
        ActivityLevel::DeepSleep
    } else if score_milli < 40000 {
        ActivityLevel::LightSleep
    } else if score_milli < 60000 {
        ActivityLevel::Restless
    } else {
        ActivityLevel::Active
    }
}

/// The rest quality wording for a score in thousandths of a percent.
pub open spec fn spec_rest_quality(score_milli: int) -> Seq<char> {
    if score_milli < 20000 {
        "Excellent"@
    } else if score_milli < 40000 {
        "Good"@
    } else if score_milli < 60000 {
        "Fair"@
    } else {
        "Poor"@
    }
}

/// Describes the rest quality of a score in thousandths of a percent.
pub fn get_rest_quality(score_milli: u128) -> (r: String)
    ensures
        r@ == spec_rest_quality(score_milli as int),
{
    if score_milli < 20000 {
        String::from_str("Excellent")
    } else if score_milli < 40000 {
        String::from_str("Good")
    } else if score_milli < 60000 {
        String::from_str("Fair")
    } else {
        String::from_str("Poor")
    }
}

impl ActivityLevel {
    /// The storage wording of the level.
    pub fn label(&self) -> (r: String)
        ensures
            r@ == (match *self {
                ActivityLevel::DeepSleep => "deep_sleep"@,
                ActivityLevel::LightSleep => "light_sleep"@,
                ActivityLevel::Restless => "restless"@,
                ActivityLevel::Active => "active"@,
            }),
    {
        match self {
            ActivityLevel::DeepSleep => String::from_str("deep_sleep"),
            ActivityLevel::LightSleep => String::from_str("light_sleep"),
            ActivityLevel::Restless => String::from_str("restless"),
            ActivityLevel::Active => String::from_str("active"),
        }
    }
}

/// Minutes from `from` to `to`, zero when `to` lies before `from`.
pub open spec fn minutes_between(from: int, to: int) -> int {
    if to >= from {
        (to - from) / 60
    } else {
        0
    }
}

/// The still-period fold over readings in stored order: the longest stretch
/// of motionless readings seen so far, in minutes, and the start of the
/// still stretch that is still open, if one is.
pub open spec fn spec_still_state(s: Seq<SensorEvent>) -> (int, Option<int>)
    decreases s.len(),
{
    if s.len() == 0 {
        (0, None)
    } else {
        let (longest, open_start) = spec_still_state(s.drop_last());
        let e = s.last();
        if !e.reading.motion {
            (
                longest,
                match open_start {
                    None => Some(e.reading.timestamp as int),
                    Some(st) => Some(st),
                },
            )
        } else {
            match open_start {
                Some(st) => {
                    let d = minutes_between(st, e.reading.timestamp as int);
                    (
                        if d > longest {
                            d
                        } else {
                            longest
                        },
                        None,
                    )
                },
                None => (longest, None),
            }
        }
    }
}

/// The longest still period of the sequence in minutes; a still stretch
/// still open at the end is measured against `end`.
pub open spec fn spec_longest_still(s: Seq<SensorEvent>, end: int) -> int {
    let (longest, open_start) = spec_still_state(s);
    match open_start {
        Some(st) => {
            let d = minutes_between(st, end);
            if d > longest {
                d
            } else {
                longest
            }
        },
        None => longest,
    }
}

/// The longest stretch of motionless readings, in minutes; an open stretch
/// is measured against `end`.
pub fn longest_still_minutes(events: &Vec<SensorEvent>, end: i64) -> (r: u64)
    requires
        forall|i: int| 0 <= i < events@.len() ==> 0 <= (#[trigger] events@[i]).reading.timestamp,
        0 <= end,
    ensures
        r as int == spec_longest_still(events@, end as int),
{
    let n = events.len();
    let mut longest: i64 = 0;
    let mut open_start: Option<i64> = None;
    let mut i: usize = 0;
    while i < n
        invariant
            n == events@.len(),
            i <= n,
            forall|k: int| 0 <= k < events@.len() ==> 0 <= (#[trigger] events@[k]).reading.timestamp,
            0 <= end,
            (longest as int, match open_start {
                Some(st) => Some(st as int),
                None => None,
            }) == spec_still_state(events@.take(i as int)),
            longest >= 0,
            open_start matches Some(st) ==> st >= 0,
        decreases n - i,
    {
        let e = events[i];
        proof {
            let t = events@.take(i + 1);
            assert(t.drop_last() =~= events@.take(i as int));
            assert(t.last() == events@[i as int]);
        }
        if !e.reading.motion {
            if open_start.is_none() {
                open_start = Some(e.reading.timestamp);
            }
        } else {
            match open_start {
                Some(st) => {
                    let d: i64 = if e.reading.timestamp >= st {
                        (e.reading.timestamp - st) / 60
                    } else {
                        0
                    };
                    if d > longest {
                        longest = d;
                    }
                    open_start = None;
                },
                None => {},
            }
        }
        i += 1;
    }
    proof {
        assert(events@.take(n as int) =~= events@);
    }
    match open_start {
        Some(st) => {
            let d: i64 = if end >= st {
                (end - st) / 60
            } else {
                0
            };
            if d > longest {
                longest = d;
            }
            longest as u64
        },
        None => longest as u64,
    }
}

/// Exact integer statistics of a period of readings: counts, sums, the
/// peak sound level, the motion score and its level, the fall count, and
/// the longest still period. Averages follow from the sums and the count.
#[derive(Debug, Clone, Copy, PartialEq, Eq, Structural)]
pub struct ActivityAnalysis {
    pub period_start: i64,
    pub period_end: i64,
    pub total_readings: u64,
    pub motion_readings: u64,
    pub activity_score_milli: u64,
    pub activity_level: ActivityLevel,
    pub sum_temperature_centi: i128,
    pub sum_sound_level: i128,
    pub max_sound_level: i32,
    pub fall_alerts: u64,
    pub longest_still_period_mins: u64,
}

/// Analyzes one period of readings, oldest first.
pub fn analyze_activity(events: &Vec<SensorEvent>, period_start: i64, period_end: i64) -> (r:
    ActivityAnalysis)
    requires
        events@.len() < 0x4000_0000_0000_0000,
        forall|i: int| 0 <= i < events@.len() ==> 0 <= (#[trigger] events@[i]).reading.timestamp,
        0 <= period_end,
    ensures
        r.period_start == period_start,
        r.period_end == period_end,
        r.total_readings == events@.len(),
        r.motion_readings as int == count_motion(events@),
        r.activity_score_milli as int == spec_activity_score_milli(
            count_motion(events@),
            events@.len() as int,
        ),
        r.activity_level == spec_activity_level(r.activity_score_milli as int),
        r.sum_temperature_centi as int == sum_temp(events@),
        r.sum_sound_level as int == sum_sound(events@),
        r.max_sound_level as int == max_sound(events@),
        r.fall_alerts as int == count_alert(events@, AlertType::Fall),
        r.longest_still_period_mins as int == spec_longest_still(events@, period_end as int),
{
    let n = events.len();
    let mut motion: u64 = 0;
    let mut temp_sum: i128 = 0;
    let mut sound_sum: i128 = 0;
    let mut peak: i32 = 0;
    let mut falls: u64 = 0;
    let mut i: usize = 0;
    while i < n
        invariant
            n == events@.len(),
            n < 0x4000_0000_0000_0000,
            i <= n,
            motion as int == count_motion(events@.take(i as int)),
            motion <= i,
            temp_sum as int == sum_temp(events@.take(i as int)),
            sound_sum as int == sum_sound(events@.take(i as int)),
            peak as int == max_sound(events@.take(i as int)),
            falls as int == count_alert(events@.take(i as int), AlertType::Fall),
            falls <= i,
        decreases n - i,
    {
        let e = events[i];
        proof {
            let t = events@.take(i + 1);
            assert(t.drop_last() =~= events@.take(i as int));
            assert(t.last() == events@[i as int]);
            lemma_sum_temp_bound(events@.take(i as int));
            lemma_sum_sound_bound(events@.take(i as int));
        }
        if e.reading.motion {
            motion = motion + 1;
        }
        temp_sum = temp_sum + (e.reading.temperature_centi as i128);
        sound_sum = sound_sum + (e.reading.sound_level as i128);
        if e.reading.sound_level > peak {
            peak = e.reading.sound_level;
        }
        if matches!(e.alert, AlertType::Fall) {
            falls = falls + 1;
        }
        i += 1;
    }
    proof {
        assert(events@.take(n as int) =~= events@);
    }
    let total: u64 = n as u64;
    let score128 = calculate_activity_score(motion, total);
    proof {
        lemma_score_within_scale(motion as int, total as int);
    }
    let score: u64 = score128 as u64;
    let level = get_activity_level(score128);
    let still = longest_still_minutes(events, period_end);
    ActivityAnalysis {
        period_start,
        period_end,
        total_readings: total,
        motion_readings: motion,
        activity_score_milli: score,
        activity_level: level,
        sum_temperature_centi: temp_sum,
        sum_sound_level: sound_sum,
        max_sound_level: peak,
        fall_alerts: falls,
        longest_still_period_mins: still,
    }
}

/// The score never leaves its scale while motion readings are no more than
/// the total.
pub proof fn lemma_score_within_scale(m: int, t: int)
    requires
        0 <= m <= t,
    ensures
        0 <= spec_activity_score_milli(m, t) <= 100000,
{
    if t > 0 {
        assert(m * 100000 <= t * 100000) by (nonlinear_arith)
            requires
                m <= t,
        ;
        assert(m * 100000 / t <= t * 100000 / t) by (nonlinear_arith)
            requires
                0 < t,
                m * 100000 <= t * 100000,
        ;
        assert(t * 100000 / t == 100000) by (nonlinear_arith)
            requires
                0 < t,
        ;
        assert(0 <= m * 100000 / t) by (nonlinear_arith)
            requires
                0 < t,
                0 <= m,
        ;
    }
}

/// One hour's share of a day's readings.
#[derive(Debug, Clone, Copy, PartialEq, Eq, Structural)]
pub struct HourlyActivity {
    pub hour: u32,
    pub readings: u64,
    pub motion_readings: u64,
    pub sum_sound_level: i128,
    pub activity_score_milli: u64,
}

/// The entry of hour `h` of the day beginning at `day_start`: the count,
/// motion count, sound sum and score of the readings of that hour.
pub open spec fn spec_hour_entry(s: Seq<SensorEvent>, day_start: int, h: int) -> HourlyActivity {
    let f = events_in_range_asc(s, day_start + h * 3600, day_start + (h + 1) * 3600 - 1);
    HourlyActivity {
        hour: h as u32,
        readings: f.len() as u64,
        motion_readings: count_motion(f) as u64,
        sum_sound_level: sum_sound(f) as i128,
        activity_score_milli: spec_activity_score_milli(count_motion(f), f.len() as int) as u64,
    }
}

/// The hour entries of the first `h` hours of the day, in hour order,
/// keeping only hours that hold readings.
pub open spec fn spec_hourly_upto(s: Seq<SensorEvent>, day_start: int, h: int) -> Seq<
    HourlyActivity,
>
    decreases h,
{
    if h <= 0 {
        Seq::empty()
    } else {
        let prev = spec_hourly_upto(s, day_start, h - 1);
        if events_in_range_asc(s, day_start + (h - 1) * 3600, day_start + h * 3600 - 1).len()
            == 0 {
            prev
        } else {
            prev.push(spec_hour_entry(s, day_start, h - 1))
        }
    }
}

/// The motion count and sound sum of a list of readings.
fn motion_and_sound(v: &Vec<SensorEvent>) -> (r: (u64, i128))
    requires
        v@.len() < 0x4000_0000_0000_0000,
    ensures
        r.0 as int == count_motion(v@),
        r.1 as int == sum_sound(v@),
        r.0 <= v@.len(),
{
    let n = v.len();
    let mut motion: u64 = 0;
    let mut ssum: i128 = 0;
    let mut i: usize = 0;
    while i < n
        invariant
            n == v@.len(),
            n < 0x4000_0000_0000_0000,
            i <= n,
            motion as int == count_motion(v@.take(i as int)),
            motion <= i,
            ssum as int == sum_sound(v@.take(i as int)),
        decreases n - i,
    {
        let e = v[i];
        proof {
            let t = v@.take(i + 1);
            assert(t.drop_last() =~= v@.take(i as int));
            assert(t.last() == v@[i as int]);
            lemma_sum_sound_bound(v@.take(i as int));
        }
        if e.reading.motion {
            motion = motion + 1;
        }
        ssum = ssum + (e.reading.sound_level as i128);
        i += 1;
    }
    proof {
        assert(v@.take(n as int) =~= v@);
    }
    (motion, ssum)
}

impl EventStore {
    /// The stored events whose timestamps lie in the closed range, oldest
    /// first.
    pub fn events_between_asc(&self, start: i64, end: i64) -> (r: Vec<SensorEvent>)
        ensures
            r@ == events_in_range_asc(self.log(), start as int, end as int),
    {
        let n = self.count();
        let mut out: Vec<SensorEvent> = Vec::new();
        let mut i: usize = 0;
        while i < n
            invariant
                n == self.log().len(),
                i <= n,
                out@ == events_in_range_asc(self.log().take(i as int), start as int, end as int),
            decreases n - i,
        {
            let e = self.event_at(i);
            proof {
                let t = self.log().take(i + 1);
                assert(t.drop_last() =~= self.log().take(i as int));
                assert(t.last() == self.log()[i as int]);
            }
            if start <= e.reading.timestamp && e.reading.timestamp <= end {
                out.push(e);
            }
            i += 1;
        }
        proof {
            assert(self.log().take(n as int) =~= self.log());
        }
        out
    }

    /// Analyzes the stored readings of the closed period.
    pub fn get_activity_analysis(&self, start: i64, end: i64) -> (r: ActivityAnalysis)
        requires
            0 <= start,
            0 <= end,
            self.log().len() < 0x4000_0000_0000_0000,
        ensures
            ({
                let f = events_in_range_asc(self.log(), start as int, end as int);
                &&& r.period_start == start
                &&& r.period_end == end
                &&& r.total_readings == f.len()
                &&& r.motion_readings as int == count_motion(f)
                &&& r.activity_score_milli as int == spec_activity_score_milli(
                    count_motion(f),
                    f.len() as int,
                )
                &&& r.activity_level == spec_activity_level(r.activity_score_milli as int)
                &&& r.sum_temperature_centi as int == sum_temp(f)
                &&& r.sum_sound_level as int == sum_sound(f)
                &&& r.max_sound_level as int == max_sound(f)
                &&& r.fall_alerts as int == count_alert(f, AlertType::Fall)
                &&& r.longest_still_period_mins as int == spec_longest_still(f, end as int)
            }),
    {
        let filtered = self.events_between_asc(start, end);
        proof {
            lemma_in_range_asc_elements(self.log(), start as int, end as int);
        }
        analyze_activity(&filtered, start, end)
    }

    /// The hour-by-hour breakdown of the day beginning at `day_start`: one
    /// entry per hour that holds readings, in hour order, each carrying the
    /// hour's counts, sound sum and motion score.
    pub fn get_hourly_activity(&self, day_start: i64) -> (r: Vec<HourlyActivity>)
        requires
            0 <= day_start <= i64::MAX - 86400,
            self.log().len() < 0x4000_0000_0000_0000,
        ensures
            r@ == spec_hourly_upto(self.log(), day_start as int, 24),
    {
        let mut out: Vec<HourlyActivity> = Vec::new();
        let mut h: u32 = 0;
        while h < 24
            invariant
                0 <= day_start <= i64::MAX - 86400,
                self.log().len() < 0x4000_0000_0000_0000,
                h <= 24,
                out@ == spec_hourly_upto(self.log(), day_start as int, h as int),
            decreases 24 - h,
        {
            let lo: i64 = day_start + (h as i64) * 3600;
            let hi: i64 = day_start + ((h as i64) + 1) * 3600 - 1;
            let seg = self.events_between_asc(lo, hi);
            proof {
                lemma_in_range_asc_elements(self.log(), lo as int, hi as int);
            }
            if seg.len() > 0 {
                let (motion, ssum) = motion_and_sound(&seg);
                let total: u64 = seg.len() as u64;
                let score128 = calculate_activity_score(motion, total);
                proof {
                    lemma_score_within_scale(motion as int, total as int);
                }
                let score: u64 = score128 as u64;
                out.push(
                    HourlyActivity {
                        hour: h,
                        readings: total,
                        motion_readings: motion,
                        sum_sound_level: ssum,
                        activity_score_milli: score,
                    },
                );
            }
            h += 1;
        }
        out
    }
}

} // verus!
