//! Readings of the monotonic clock.

use std::time::Instant;

use vstd::prelude::*;

verus! {

/// `std::time::Instant`, a point on the machine's monotonic clock. Nothing is
/// known of what is inside.
#[verifier::external_type_specification]
#[verifier::external_body]
pub struct ExInstant(Instant);

/// Calls `Instant::now`. What it reads depends on the time of the call, so nothing
/// is claimed of it.
#[verifier::external_body]
fn instant_now() -> Instant {
    Instant::now()
}

/// Calls `Instant::elapsed`; the `Duration` it returns is converted to whole
/// nanoseconds. How many they are depends on the time of the call, so nothing is
/// claimed of them.
#[verifier::external_body]
fn nanos_since(origin: &Instant) -> u128 {
    origin.elapsed().as_nanos()
}

/// A clock that counts nanoseconds from when it was made.
pub(crate) struct Clock {
    origin: Instant,
}

impl Clock {
    /// The instant that the clock counts from.
    pub(crate) closed spec fn origin(self) -> Instant {
        self.origin
    }

    pub(crate) fn new() -> Self {
        Clock { origin: instant_now() }
    }

    /// Reads the clock, knowing that it read `earlier` before. What is made of the
    /// machine's reading is [`not_before`]; of the reading itself nothing is known,
    /// so that no more than its floor can be said here.
    pub(crate) fn now(&self, earlier: u128) -> (now: u128)
        ensures
            now >= earlier,
    {
        not_before(nanos_since(&self.origin), earlier)
    }
}

/// What counts as the time when the machine's clock reads `reading` and read
/// `earlier` before. That clock does not run backwards, and where it seems to, it
/// stands still here.
pub fn not_before(reading: u128, earlier: u128) -> (now: u128)
    ensures
        now == (if reading < earlier {
            earlier
        } else {
            reading
        }),
{
    if reading < earlier {
        earlier
    } else {
        reading
    }
}

} // verus!
