//! When a request to the hub expires.

use vstd::prelude::*;
use crate::error::ContractError;

verus! {

/// The shortest time, in seconds, that a request may ask for.
pub const MIN_TIMEOUT: u64 = 30;

/// The longest time, in seconds, that a request may ask for.
pub const MAX_TIMEOUT: u64 = 240;

/// The time, in seconds, of a request that asks for none.
pub const DEFAULT_TIMEOUT: u64 = 60;

/// The number of nanoseconds in a second.
pub const NANOS_PER_SECOND: u64 = 1_000_000_000;

/// The time, in seconds, that a request gets: what it asks for, if that is
/// within the bounds; the default, if it asks for nothing.
pub open spec fn timeout_of(timeout: Option<u64>) -> Option<u64> {
    match timeout {
        Some(seconds) => if MIN_TIMEOUT <= seconds <= MAX_TIMEOUT {
            Some(seconds)
        } else {
            None
        },
        None => Some(DEFAULT_TIMEOUT),
    }
}

/// The time, in seconds, that a request gets.
pub fn get_timeout(timeout: Option<u64>) -> (r: Result<u64, ContractError>)
    ensures
        timeout_of(timeout) matches Some(seconds) ==> r == Ok::<u64, ContractError>(seconds),
        timeout_of(timeout) is None ==> r == Err::<u64, ContractError>(ContractError::InvalidTimeout),
{
    match timeout {
        Some(seconds) => {
            if seconds < MIN_TIMEOUT || seconds > MAX_TIMEOUT {
                Err(ContractError::InvalidTimeout)
            } else {
                Ok(seconds)
            }
        },
        None => Ok(DEFAULT_TIMEOUT),
    }
}

/// The moment, in nanoseconds, that lies `seconds` after `now`.
pub open spec fn moment_after(now: u64, seconds: u64) -> int {
    now + seconds * NANOS_PER_SECOND
}

/// The moment, in nanoseconds, at which a request made at `now` expires:
/// `None` where the time asked for is out of bounds or the moment cannot be
/// written in 64 bits.
pub open spec fn expiry_of(now: u64, timeout: Option<u64>) -> Option<u64> {
    match timeout_of(timeout) {
        Some(seconds) => if moment_after(now, seconds) <= u64::MAX {
            Some(moment_after(now, seconds) as u64)
        } else {
            None
        },
        None => None,
    }
}

/// The moment, in nanoseconds, that lies `seconds` after `now`.
pub fn expiry(now: u64, seconds: u64) -> (r: Result<u64, ContractError>)
    ensures
        moment_after(now, seconds) <= u64::MAX ==> r == Ok::<u64, ContractError>(moment_after(now, seconds) as u64),
        moment_after(now, seconds) > u64::MAX ==> r == Err::<u64, ContractError>(ContractError::Overflow),
{
    let nanos: u64 = match seconds.checked_mul(NANOS_PER_SECOND) {
        Some(nanos) => nanos,
        None => {
            return Err(ContractError::Overflow);
        },
    };
    match now.checked_add(nanos) {
        Some(moment) => Ok(moment),
        None => Err(ContractError::Overflow),
    }
}

} // verus!
