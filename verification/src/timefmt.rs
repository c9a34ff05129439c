//! Timestamp rendering. The library keeps timestamps as Unix seconds; the
//! RFC 3339 text form comes from chrono behind a trusted wrapper.

use vstd::prelude::*;

verus! {

/// The RFC 3339 rendering of a Unix-seconds timestamp at UTC. For a fixed
/// zero offset the rendering is a function of the seconds alone.
pub uninterp spec fn rfc3339_of(secs: int) -> Seq<char>;

/// Relies on chrono: `Utc.timestamp_opt(secs, 0)` is a single valid moment
/// for seconds between the epoch and the year 9999, and `to_rfc3339`
/// renders that moment from its value alone.
#[verifier::external_body]
pub fn rfc3339_utc(secs: i64) -> (r: String)
    requires
        0 <= secs <= 253402300799,
    ensures
        r@ == rfc3339_of(secs as int),
{
    chrono::TimeZone::timestamp_opt(&chrono::Utc, secs, 0).unwrap().to_rfc3339()
}

/// The latest timestamp the RFC 3339 rendering accepts: the last second of
/// the year 9999.
pub open spec fn max_rfc3339_secs() -> int {
    253402300799
}

} // verus!
