//! The wall-clock time that an entry is stamped with.

use vstd::prelude::*;
use chrono::Local;
use chrono::Timelike;

verus! {

/// A time of day without date, fraction of a second or time zone.
#[derive(Clone, Copy, Debug, PartialEq, Eq, Structural)]
pub struct TimeOfDay {
    pub hour: u32,
    pub minute: u32,
    pub second: u32,
}

impl TimeOfDay {
    /// Whether the three numbers are ones that a clock can show.
    pub open spec fn on_the_dial(self) -> bool {
        self.hour < 24 && self.minute < 60 && self.second < 60
    }
}

/// Reads the host's local time with `chrono::Local::now` and takes it apart
/// with `Timelike::hour`, `Timelike::minute` and `Timelike::second`.
///
/// Trusted: chrono gives the hour from 0 to 23 and the minute and the second
/// from 0 to 59; a leap second shows as second 59. Nothing is claimed about
/// which time comes back. `Local::now` panics where the system clock stands
/// before 1970.
#[verifier::external_body]
pub(crate) fn read_local_clock() -> (time: TimeOfDay)
    ensures
        time.on_the_dial(),
{
    let now = Local::now();
    TimeOfDay { hour: now.hour(), minute: now.minute(), second: now.second() }
}

} // verus!
