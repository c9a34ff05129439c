//! Plain data carried over the administrative and query interfaces, and the
//! small decisions those handlers make: clamping a requested page size,
//! shaping an error or summary payload, and laying out the sleep-analysis
//! window.

use vstd::prelude::*;
use crate::store::AlertSummary;

verus! {

/// A query over the observation list: a page size and, optionally, how many
/// minutes back to look.
#[derive(Debug, Clone)]
pub struct ListObservationsQuery {
    pub _count: usize,
    pub minutes: Option<i64>,
}

/// A query over activity analysis: the window's hours and the day.
#[derive(Debug, Clone)]
pub struct ActivityQuery {
    pub start_hour: Option<u32>,
    pub end_hour: Option<u32>,
    pub date: Option<String>,
}

/// An error payload: a machine-readable kind and a human-readable message.
#[derive(Debug, Clone)]
pub struct ApiError {
    pub error: String,
    pub message: String,
}

impl ApiError {
    /// The payload for a resource that does not exist.
    pub fn not_found(msg: &str) -> (r: ApiError)
        ensures
            r.error@ == "not_found"@,
            r.message@ == msg@,
    {
        ApiError { error: String::from_str("not_found"), message: String::from_str(msg) }
    }

    /// The payload for a failure inside the service.
    pub fn internal_error(msg: &str) -> (r: ApiError)
        ensures
            r.error@ == "internal_error"@,
            r.message@ == msg@,
    {
        ApiError { error: String::from_str("internal_error"), message: String::from_str(msg) }
    }
}

/// The page size used when a query names none.
pub fn default_limit() -> (r: usize)
    ensures
        r == 50,
{
    50
}

/// Clamps a requested page size to at least one and at most a thousand.
pub fn clamp_observation_limit(requested: usize) -> (r: usize)
    ensures
        r == (if requested > 1000 {
            1000int
        } else if requested < 1 {
            1int
        } else {
            requested as int
        }),
{
    if requested > 1000 {
        1000
    } else if requested < 1 {
        1
    } else {
        requested
    }
}

/// The summary payload of the monitoring service.
#[derive(Debug, Clone)]
pub struct SummaryResponse {
    pub total_readings: u64,
    pub fall_alerts: u64,
    pub inactivity_alerts: u64,
    pub system_status: String,
    pub last_updated: String,
}

impl SummaryResponse {
    /// Shapes the stored counts into the summary payload, stamped with the
    /// given moment and an active status.
    pub fn from_summary(summary: &AlertSummary, last_updated: String) -> (r: SummaryResponse)
        ensures
            r.total_readings == summary.total_readings,
            r.fall_alerts == summary.fall_alerts,
            r.inactivity_alerts == summary.inactivity_alerts,
            r.system_status@ == "active"@,
            r.last_updated == last_updated,
    {
        SummaryResponse {
            total_readings: summary.total_readings,
            fall_alerts: summary.fall_alerts,
            inactivity_alerts: summary.inactivity_alerts,
            system_status: String::from_str("active"),
            last_updated,
        }
    }
}

/// The closed sleep-analysis window in Unix seconds: it opens at the start
/// hour of the given day and closes at the end hour — of the next day when
/// the end hour is the smaller one.
pub fn sleep_window(day_start: i64, start_hour: u32, end_hour: u32) -> (r: (i64, i64))
    requires
        start_hour < 24,
        end_hour < 24,
        0 <= day_start <= i64::MAX - 2 * 86400,
    ensures
        r.0 == day_start + start_hour * 3600,
        r.1 == day_start + (if end_hour < start_hour {
            86400int
        } else {
            0int
        }) + end_hour * 3600,
        r.0 >= 0,
        r.1 >= 0,
{
    let start = day_start + (start_hour as i64) * 3600;
    let end_day: i64 = if end_hour < start_hour {
        day_start + 86400
    } else {
        day_start
    };
    let end = end_day + (end_hour as i64) * 3600;
    (start, end)
}

/// Connection parameters of the storage collaborator.
#[derive(Debug, Clone)]
pub struct DbConfig {
    pub host: String,
    pub port: u16,
    pub user: String,
    pub password: String,
    pub dbname: String,
}

/// Configuration of the serial device reader.
#[derive(Debug, Clone)]
pub struct SerialConfig {
    pub port: String,
    pub baud_rate: u32,
    pub sound_threshold: i32,
    pub inactivity_seconds: u64,
}

impl Default for SerialConfig {
    /// The conventional device setup: the usual port at 9600 baud, a sound
    /// threshold of 150, and five minutes of inactivity.
    fn default() -> (r: SerialConfig)
        ensures
            r.port@ == "COM3"@,
            r.baud_rate == 9600,
            r.sound_threshold == 150,
            r.inactivity_seconds == 300,
    {
        SerialConfig {
            port: String::from_str("COM3"),
            baud_rate: 9600,
            sound_threshold: 150,
            inactivity_seconds: 300,
        }
    }
}

} // verus!
