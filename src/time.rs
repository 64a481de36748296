use core::cmp::Ordering;
use vstd::prelude::*;
use vstd::std_specs::cmp::PartialOrdSpec;

verus! {

/// Nanoseconds in one second.
pub const NANOS_PER_SEC: u32 = 1_000_000_000;

/// A timestamp of a file: whole seconds since the platform's epoch, and the
/// nanoseconds that follow them.
///
/// On the Unix family and Redox, for which this library is built, the epoch
/// is January 1, 1970. Windows file times count from January 1, 1601:
/// `windows::from_intervals` keeps that reference, and
/// `windows::rebase_from_1601` moves such a timestamp to 1970.
///
/// Values are compared by seconds first and nanoseconds second.
#[derive(Debug, Clone, Copy, PartialEq, Eq, Structural, Ord, Hash)]
pub struct FileTime {
    seconds: i64,
    nanos: u32,
}

impl FileTime {
    #[verifier::type_invariant]
    spec fn in_range(self) -> bool {
        self.nanos < NANOS_PER_SEC
    }

    /// The whole seconds of the timestamp.
    pub closed spec fn sec(self) -> int {
        self.seconds as int
    }

    /// The nanoseconds that follow the whole seconds.
    pub closed spec fn nsec(self) -> int {
        self.nanos as int
    }

    /// The timestamp as a count of nanoseconds since the epoch.
    pub open spec fn total_nanos(self) -> int {
        self.sec() * NANOS_PER_SEC + self.nsec()
    }

    /// What holds of every timestamp: its nanoseconds are below one billion.
    pub open spec fn valid(self) -> bool {
        0 <= self.nsec() < NANOS_PER_SEC
    }

    /// The seconds of a timestamp fit an `i64`.
    pub proof fn lemma_seconds_fit(self)
        ensures
            i64::MIN <= self.sec() <= i64::MAX,
    {
    }

    /// Creates a timestamp representing a 0 time, the base of a chain of
    /// maximums.
    pub fn zero() -> (r: FileTime)
        ensures
            r.sec() == 0,
            r.nsec() == 0,
    {
        FileTime { seconds: 0, nanos: 0 }
    }

    /// The timestamp `seconds` and `nanos` after January 1, 1970, the
    /// nanoseconds of whole seconds carried into the seconds.
    pub closed spec fn since_1970(seconds: i64, nanos: u32) -> FileTime {
        FileTime {
            seconds: (seconds + nanos / NANOS_PER_SEC) as i64,
            nanos: (nanos % NANOS_PER_SEC) as u32,
        }
    }

    /// Creates a timestamp from seconds and nanoseconds since January 1,
    /// 1970; nanoseconds of a second or more are carried into the seconds.
    pub fn from_seconds_since_1970(seconds: i64, nanos: u32) -> (r: FileTime)
        requires
            seconds + nanos / NANOS_PER_SEC <= i64::MAX,
        ensures
            r == FileTime::since_1970(seconds, nanos),
            r.sec() == seconds + nanos / NANOS_PER_SEC,
            r.nsec() == nanos % NANOS_PER_SEC,
            r.valid(),
    {
        FileTime { seconds: seconds + (nanos / NANOS_PER_SEC) as i64, nanos: nanos % NANOS_PER_SEC }
    }

    /// Creates a timestamp from the seconds and nanoseconds of a native
    /// time value whose nanoseconds are already below one second.
    pub fn from_os_repr(seconds: i64, nanos: i64) -> (r: FileTime)
        requires
            0 <= nanos < NANOS_PER_SEC,
        ensures
            r.sec() == seconds,
            r.nsec() == nanos,
            r.valid(),
    {
        FileTime { seconds, nanos: nanos as u32 }
    }

    /// The whole seconds of the timestamp, relative to the platform's epoch:
    /// not portable across platforms. On the Unix family, for which this
    /// library is built, that epoch is January 1, 1970.
    pub fn seconds(&self) -> (r: i64)
        ensures
            r == self.sec(),
    {
        self.seconds
    }

    /// The whole seconds of the timestamp relative to January 1, 1970: the
    /// portable reading of the seconds. The epoch of this build is 1970
    /// already, so nothing is subtracted.
    pub fn seconds_relative_to_1970(&self) -> (r: i64)
        ensures
            r == self.sec(),
    {
        self.seconds
    }

    /// The nanoseconds that follow the whole seconds, always below one
    /// billion.
    pub fn nanoseconds(&self) -> (r: u32)
        ensures
            r == self.nsec(),
            r < NANOS_PER_SEC,
    {
        proof {
            use_type_invariant(self);
        }
        self.nanos
    }

    /// Whether this timestamp comes strictly before `other`.
    pub open spec fn before(self, other: FileTime) -> bool {
        self.sec() < other.sec() || (self.sec() == other.sec() && self.nsec() < other.nsec())
    }

    /// How this timestamp compares with `other`.
    pub open spec fn compare(self, other: FileTime) -> Ordering {
        if self.before(other) {
            Ordering::Less
        } else if other.before(self) {
            Ordering::Greater
        } else {
            Ordering::Equal
        }
    }

}

/// A timestamp made from seconds and in-range nanoseconds since 1970 gives
/// back those seconds when read relative to 1970, and those nanoseconds.
pub proof fn lemma_epoch_rebasing(seconds: i64, nanos: u32)
    requires
        seconds >= 0,
        nanos < NANOS_PER_SEC,
    ensures
        FileTime::since_1970(seconds, nanos).sec() == seconds,
        FileTime::since_1970(seconds, nanos).nsec() == nanos,
{
}

/// A timestamp whose seconds are smaller comes first, whatever the
/// nanoseconds of either; so do the timestamps that the constructor makes
/// from seconds since 1970.
pub proof fn lemma_earlier_seconds_order_first(a: FileTime, b: FileTime, sa: i64, na: u32, sb: i64, nb: u32)
    requires
        a.sec() < b.sec(),
        sa < sb,
        na < NANOS_PER_SEC,
        nb < NANOS_PER_SEC,
    ensures
        a.partial_cmp_spec(&b) == Some(Ordering::Less),
        FileTime::since_1970(sa, na).partial_cmp_spec(&FileTime::since_1970(sb, nb)) == Some(
            Ordering::Less,
        ),
{
}

/// The order of timestamps is the order of the nanoseconds that they count.
pub proof fn lemma_order_follows_total_nanos(a: FileTime, b: FileTime)
    requires
        a.valid(),
        b.valid(),
    ensures
        a.before(b) <==> a.total_nanos() < b.total_nanos(),
        a.compare(b) == Ordering::Equal <==> a == b,
{
    assert(a.before(b) <==> a.total_nanos() < b.total_nanos()) by (nonlinear_arith)
        requires
            a.total_nanos() == a.sec() * 1_000_000_000 + a.nsec(),
            b.total_nanos() == b.sec() * 1_000_000_000 + b.nsec(),
            0 <= a.nsec() < 1_000_000_000,
            0 <= b.nsec() < 1_000_000_000,
            a.before(b) <==> (a.sec() < b.sec() || (a.sec() == b.sec() && a.nsec() < b.nsec())),
    ;
}

impl PartialOrd for FileTime {
    fn partial_cmp(&self, other: &FileTime) -> (r: Option<Ordering>) {
        if self.seconds < other.seconds {
            Some(Ordering::Less)
        } else if self.seconds > other.seconds {
            Some(Ordering::Greater)
        } else if self.nanos < other.nanos {
            Some(Ordering::Less)
        } else if self.nanos > other.nanos {
            Some(Ordering::Greater)
        } else {
            Some(Ordering::Equal)
        }
    }
}

impl vstd::std_specs::cmp::PartialOrdSpecImpl for FileTime {
    open spec fn obeys_partial_cmp_spec() -> bool {
        true
    }

    open spec fn partial_cmp_spec(&self, other: &FileTime) -> Option<Ordering> {
        Some(self.compare(*other))
    }
}

} // verus!
