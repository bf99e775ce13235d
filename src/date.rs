//! The `Date` header of a response.
use vstd::prelude::*;

verus! {

/// The first second, counted from the Unix epoch, that an HTTP date cannot
/// express: the start of the year 10000.
pub const END_OF_HTTP_DATES: u64 = 253402300800;

/// The IMF-fixdate (`Fri, 15 May 2015 15:34:21 GMT`) of the instant `secs`
/// seconds after the Unix epoch.
pub uninterp spec fn http_date_of(secs: nat) -> Seq<char>;

/// Relies on httpdate::fmt_http_date: the IMF-fixdate of the instant `secs`
/// seconds after the epoch. It panics from the year 10000 on, which the
/// precondition leaves out.
#[verifier::external_body]
pub(crate) fn http_date(secs: u64) -> (r: String)
    requires
        secs < END_OF_HTTP_DATES,
    ensures
        r@ == http_date_of(secs as nat),
{
    httpdate::fmt_http_date(std::time::UNIX_EPOCH + std::time::Duration::from_secs(secs))
}

/// Relies on std::time::SystemTime::now, read as whole seconds since the
/// Unix epoch; `None` where the clock stands before the epoch. It depends
/// on the clock, so nothing is promised of it.
#[verifier::external_body]
pub(crate) fn unix_time_now() -> (r: Option<u64>) {
    match std::time::SystemTime::now().duration_since(std::time::UNIX_EPOCH) {
        Ok(d) => Some(d.as_secs()),
        Err(_) => None,
    }
}

/// The `Date` header for now, where the clock gives a time that an HTTP date
/// can express.
pub fn date_now() -> (r: Option<String>)
    ensures
        r matches Some(d) ==> exists|secs: nat| secs < END_OF_HTTP_DATES && d@ == http_date_of(secs),
{
    match unix_time_now() {
        Some(secs) => if secs < END_OF_HTTP_DATES {
            Some(http_date(secs))
        } else {
            None
        },
        None => None,
    }
}

} // verus!
