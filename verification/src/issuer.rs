//! Certificate issuer support: the validity window of a self-signed
//! certificate.
//!
//! The certificate itself is assembled by a standard certificate builder
//! outside this crate; what is decided here is the validity window it is
//! given: `notBefore` is the moment of issuance, and `notAfter` defaults to
//! ten years later when the caller does not choose one.

use vstd::prelude::*;

verus! {

/// Ten years in seconds, as a fixed approximation that ignores leap years.
pub const TEN_YEARS_SECS: u64 = 365 * 24 * 60 * 60 * 10;

/// The validity window of a certificate issued at `now_secs` (seconds
/// since the Unix epoch): it begins at issuance and ends at the requested
/// `not_after`, or ten years after issuance when none is requested.
pub fn validity_window(now_secs: u64, not_after: Option<u64>) -> (r: (u64, u64))
    requires
        now_secs + TEN_YEARS_SECS <= u64::MAX,
    ensures
        r.0 == now_secs,
        r.1 == match not_after {
            Option::Some(t) => t as int,
            Option::None => now_secs + TEN_YEARS_SECS,
        },
{
    let end = match not_after {
        Some(t) => t,
        None => now_secs + TEN_YEARS_SECS,
    };
    (now_secs, end)
}

} // verus!
