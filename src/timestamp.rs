use vstd::prelude::*;

verus! {

/// The earliest whole second that the calendar can hold: January 1 of year -262143.
pub const MIN_UNIX: i64 = -8334601228800;

/// The latest whole second that the calendar can hold: December 31 of year 262142, 23:59:59.
pub const MAX_UNIX: i64 = 8210266876799;

/// What a wire integer decodes to as a timestamp: itself, when the calendar holds it.
pub open spec fn decode_unix(secs: int) -> Option<int> {
    if MIN_UNIX <= secs <= MAX_UNIX {
        Some(secs)
    } else {
        None
    }
}

/// Relies on chrono's `DateTime::<Utc>::from_timestamp` with no nanoseconds: it gives a
/// date-time exactly when the second lies in the calendar's range of years.
#[verifier::external_body]
fn calendar_holds(secs: i64) -> (r: bool)
    ensures
        r == (MIN_UNIX <= secs <= MAX_UNIX),
{
    chrono::DateTime::<chrono::Utc>::from_timestamp(secs, 0).is_some()
}

/// A point in time, in whole seconds since the Unix epoch, that the calendar can hold.
#[derive(Clone, Copy, Debug, PartialEq, Eq, Hash, Structural)]
pub struct UnixTime {
    secs: i64,
}

impl UnixTime {
    #[verifier::type_invariant]
    spec fn in_calendar(self) -> bool {
        MIN_UNIX <= self.secs <= MAX_UNIX
    }

    /// The seconds since the epoch.
    pub closed spec fn seconds(self) -> int {
        self.secs as int
    }

    /// Decodes a wire integer; `None` when the calendar cannot hold it.
    pub fn from_unix(secs: i64) -> (r: Option<UnixTime>)
        ensures
            match r {
                Some(t) => decode_unix(secs as int) == Some(t.seconds()),
                None => decode_unix(secs as int) == None::<int>,
            },
    {
        if calendar_holds(secs) {
            Some(UnixTime { secs })
        } else {
            None
        }
    }

    /// Encodes the timestamp as a wire integer.
    pub fn unix(&self) -> (r: i64)
        ensures
            r as int == self.seconds(),
            decode_unix(r as int) == Some(r as int),
    {
        proof {
            use_type_invariant(self);
        }
        self.secs
    }
}

/// Encoding a decoded timestamp gives back the integer it was decoded from.
pub proof fn lemma_unix_round_trip(secs: int)
    requires
        decode_unix(secs) is Some,
    ensures
        decode_unix(secs) == Some(secs),
{
}

} // verus!
