//! Wall-clock instants and their text.

use vstd::prelude::*;

verus! {

/// Instants from this many seconds after the epoch on have a five-digit
/// year and no timestamp text.
pub const SECS_LIMIT: u64 = 253_402_300_800;

/// Nanoseconds in a second.
pub const NANOS_PER_SEC: u32 = 1_000_000_000;

/// A point in time, as whole seconds since 1970-01-01T00:00:00Z and the
/// nanoseconds into that second. Every value lies before the year 10000.
#[derive(Clone, Copy, Debug)]
pub struct WallClock {
    secs: u64,
    nanos: u32,
}

/// The text that `humantime` gives an instant at millisecond precision,
/// `2018-02-14T00:28:07.133Z`, for `secs` seconds and `nanos` nanoseconds
/// since the epoch, in UTC.
pub uninterp spec fn rfc3339_millis(secs: u64, nanos: u32) -> Seq<char>;

/// `humantime::format_rfc3339_millis`, displayed. Trusted: the text depends
/// on the instant alone (the machine's time zone plays no part), which is
/// what `rfc3339_millis` names. The bounds keep out the instants that the
/// formatter refuses.
#[verifier::external_body]
fn rfc3339_text(secs: u64, nanos: u32) -> (r: String)
    requires
        secs < SECS_LIMIT,
        nanos < NANOS_PER_SEC,
    ensures
        r@ == rfc3339_millis(secs, nanos),
{
    let at = std::time::UNIX_EPOCH + std::time::Duration::new(secs, nanos);
    humantime::format_rfc3339_millis(at).to_string()
}

impl WallClock {
    #[verifier::type_invariant]
    spec fn in_range(self) -> bool {
        self.secs < SECS_LIMIT && self.nanos < NANOS_PER_SEC
    }

    pub closed spec fn secs(self) -> u64 {
        self.secs
    }

    pub closed spec fn nanos(self) -> u32 {
        self.nanos
    }

    /// The timestamp that stands for this instant in a rendered line.
    pub open spec fn text(self) -> Seq<char> {
        rfc3339_millis(self.secs(), self.nanos())
    }

    /// An instant from a duration since the epoch, unless it has no
    /// timestamp text.
    pub fn new(secs: u64, nanos: u32) -> (r: Option<WallClock>)
        ensures
            r is Some <==> secs < SECS_LIMIT && nanos < NANOS_PER_SEC,
            r matches Some(at) ==> at.secs() == secs && at.nanos() == nanos,
    {
        if secs < SECS_LIMIT && nanos < NANOS_PER_SEC {
            Some(WallClock { secs, nanos })
        } else {
            None
        }
    }

    pub fn as_secs(&self) -> (r: u64)
        ensures
            r == self.secs(),
            r < SECS_LIMIT,
    {
        proof {
            use_type_invariant(self);
        }
        self.secs
    }

    pub fn subsec_nanos(&self) -> (r: u32)
        ensures
            r == self.nanos(),
            r < NANOS_PER_SEC,
    {
        proof {
            use_type_invariant(self);
        }
        self.nanos
    }

    pub fn timestamp(&self) -> (r: String)
        ensures
            r@ == self.text(),
    {
        proof {
            use_type_invariant(self);
        }
        rfc3339_text(self.secs, self.nanos)
    }
}

} // verus!
