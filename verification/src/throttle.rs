//! The mutation throttle: state-changing requests issued through one client
//! are spaced at least one second apart.

use vstd::prelude::*;

use crate::method::Method;

verus! {

/// Minimum spacing between consecutive requests that use mutating methods,
/// in nanoseconds
pub const MUTATION_DELAY_NANOS: u64 = 1_000_000_000;

/// How long a request must still wait before it may be sent: a mutating
/// request waits until a full second has passed since the most recent
/// mutating request was started, and a GET never waits
pub open spec fn spec_mutation_wait(method: Method, last_mutation: Option<u64>, now: int) -> int {
    if method is Get {
        0
    } else {
        match last_mutation {
            None => 0,
            Some(t) => {
                let elapsed = if now >= t {
                    now - t
                } else {
                    0
                };
                if elapsed >= MUTATION_DELAY_NANOS {
                    0
                } else {
                    MUTATION_DELAY_NANOS - elapsed
                }
            },
        }
    }
}

/// Compute the scheduling delay owed before a request is sent.
/// `last_mutation` is the monotonic timestamp at which the most recent
/// mutating request was started, if any, and `now_nanos` the current
/// monotonic time.
pub fn mutation_wait_nanos(method: Method, last_mutation: Option<u64>, now_nanos: u64) -> (r: u64)
    ensures
        r as int == spec_mutation_wait(method, last_mutation, now_nanos as int),
{
    if !method.is_mutating() {
        return 0;
    }
    match last_mutation {
        None => 0,
        Some(t) => {
            let elapsed: u64 = if now_nanos >= t {
                now_nanos - t
            } else {
                0
            };
            if elapsed >= MUTATION_DELAY_NANOS {
                0
            } else {
                MUTATION_DELAY_NANOS - elapsed
            }
        },
    }
}

} // verus!
