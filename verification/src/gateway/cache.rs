//! The response cache: when an entry expires, and where it is kept.

use vstd::prelude::*;
use vstd::string::StringExecFns;
use std::time::{Duration, SystemTime, SystemTimeError, UNIX_EPOCH};

verus! {

/// How long a cached listing is served, in hours.
pub const CACHE_DURATION_HOURS: u64 = 24;

/// How long a cached price is served, in hours.
pub const PRICE_CACHE_DURATION_HOURS: u64 = 1;

/// The directory that holds the cache files.
pub const CACHE_DIR: &'static str = "cache";

/// `std::time::SystemTime`: a reading of the system clock, carried as it is.
#[verifier::external_type_specification]
#[verifier::external_body]
pub struct ExSystemTime(std::time::SystemTime);

/// `std::time::SystemTimeError`: the failure to measure a time that lies
/// before the time it is measured from, carried as it is.
#[verifier::external_type_specification]
#[verifier::external_body]
pub struct ExSystemTimeError(std::time::SystemTimeError);

/// `SystemTime::now`. The clock's reading differs from call to call: nothing
/// is claimed of it.
#[verifier::external_body]
fn system_time_now() -> SystemTime {
    SystemTime::now()
}

/// `SystemTime::duration_since`, measured from `UNIX_EPOCH`. Nothing is
/// claimed of the outcome.
#[verifier::external_body]
fn since_unix_epoch(time: &SystemTime) -> Result<Duration, SystemTimeError> {
    time.duration_since(UNIX_EPOCH)
}

/// `Duration::as_secs`. Nothing is claimed of the number.
#[verifier::external_body]
fn whole_seconds(duration: &Duration) -> u64 {
    duration.as_secs()
}

/// The seconds that have passed since the start of 1970, by the system
/// clock; zero where the clock is set before that.
pub fn get_current_timestamp() -> u64 {
    let now = system_time_now();
    match since_unix_epoch(&now) {
        Ok(elapsed) => whole_seconds(&elapsed),
        Err(_) => 0,
    }
}

/// Whether an entry written at `cache_timestamp` is still served at
/// `current_time`, both in seconds, where entries are served for
/// `max_age_hours`: its age in whole hours is below the limit. An entry from
/// the future is not served.
pub open spec fn fresh_at(current_time: u64, cache_timestamp: u64, max_age_hours: u64) -> bool {
    cache_timestamp <= current_time && (current_time - cache_timestamp) / 3600 < max_age_hours
}

/// Decides whether an entry written at `cache_timestamp` is still served at
/// `current_time`.
pub fn is_fresh_at(current_time: u64, cache_timestamp: u64, max_age_hours: u64) -> (fresh: bool)
    ensures
        fresh == fresh_at(current_time, cache_timestamp, max_age_hours),
{
    if cache_timestamp > current_time {
        return false;
    }
    (current_time - cache_timestamp) / 3600 < max_age_hours
}

/// Whether a listing cached at `cache_timestamp` is still served now.
pub fn is_cache_valid(cache_timestamp: u64) -> (valid: bool)
    ensures
        exists|current_time: u64|
            valid == #[trigger] fresh_at(current_time, cache_timestamp, CACHE_DURATION_HOURS),
{
    let current_time = get_current_timestamp();
    let valid = is_fresh_at(current_time, cache_timestamp, CACHE_DURATION_HOURS);
    assert(valid == fresh_at(current_time, cache_timestamp, CACHE_DURATION_HOURS));
    valid
}

/// Whether a price cached at `cache_timestamp` is still served now.
pub fn is_price_cache_valid(cache_timestamp: u64) -> (valid: bool)
    ensures
        exists|current_time: u64|
            valid == #[trigger] fresh_at(
                current_time,
                cache_timestamp,
                PRICE_CACHE_DURATION_HOURS,
            ),
{
    let current_time = get_current_timestamp();
    let valid = is_fresh_at(current_time, cache_timestamp, PRICE_CACHE_DURATION_HOURS);
    assert(valid == fresh_at(current_time, cache_timestamp, PRICE_CACHE_DURATION_HOURS));
    valid
}

/// The file that holds the entry under `cache_key`.
pub fn get_cache_file_path(cache_key: &str) -> (path: String)
    ensures
        path@ == CACHE_DIR@ + "/"@ + cache_key@ + ".json"@,
{
    let mut path = CACHE_DIR.to_owned();
    path.append("/");
    path.append(cache_key);
    path.append(".json");
    path
}

} // verus!
