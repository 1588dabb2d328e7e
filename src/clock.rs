//! Instants, held as microseconds since the Unix epoch (UTC).

use vstd::prelude::*;

verus! {

/// The RFC 3339 rendering of an instant given in microseconds since the epoch.
pub uninterp spec fn rfc3339_of(micros: int) -> Seq<char>;

/// Relies on `chrono::Utc::now` and `DateTime::timestamp_micros`: the current
/// instant. Nothing is promised of its value.
#[verifier::external_body]
pub(crate) fn now_micros() -> (r: i64) {
    chrono::Utc::now().timestamp_micros()
}

/// Relies on `chrono::DateTime::from_timestamp_micros` and `to_rfc3339`: the
/// text depends on the instant alone (empty where chrono cannot represent it).
#[verifier::external_body]
pub(crate) fn rfc3339(micros: i64) -> (r: String)
    ensures
        r@ == rfc3339_of(micros as int),
{
    match chrono::DateTime::from_timestamp_micros(micros) {
        Some(t) => t.to_rfc3339(),
        None => String::new(),
    }
}

/// The whole seconds of an instant given in microseconds, rounded down.
pub fn seconds_of(micros: i64) -> (r: i64)
    ensures
        r as int == micros as int / 1_000_000,
{
    if micros >= 0 {
        micros / 1_000_000
    } else {
        let m: u64 = (-(micros + 1)) as u64;
        let q: u64 = m / 1_000_000;
        assert(q * 1_000_000 <= m < q * 1_000_000 + 1_000_000);
        let r: i64 = -(q as i64) - 1;
        assert(r * 1_000_000 <= micros < r * 1_000_000 + 1_000_000);
        assert(r as int == micros as int / 1_000_000) by (nonlinear_arith)
            requires
                r * 1_000_000 <= micros < r * 1_000_000 + 1_000_000,
        {
        }
        r
    }
}

} // verus!
