use crate::time::{FileTime, NANOS_PER_SEC};
use vstd::prelude::*;

verus! {

/// The value that, in the nanoseconds of a `timespec`, asks `utimensat` and
/// `futimens` to leave that timestamp as it is.
pub const UTIME_OMIT: i64 = 1073741822;

/// A native seconds and nanoseconds pair, as `utimensat` and `futimens`
/// take it.
#[derive(Debug, Clone, Copy, PartialEq, Eq, Structural)]
pub struct Timespec {
    pub tv_sec: i64,
    pub tv_nsec: i64,
}

/// A native seconds and microseconds pair, as `utimes`, `lutimes` and
/// `futimes` take it.
#[derive(Debug, Clone, Copy, PartialEq, Eq, Structural)]
pub struct Timeval {
    pub tv_sec: i64,
    pub tv_usec: i64,
}

/// The `timespec` that writes `ft`, or that leaves the timestamp alone when
/// there is none.
pub open spec fn timespec_of(ft: Option<FileTime>) -> Timespec {
    match ft {
        Some(t) => Timespec { tv_sec: t.sec() as i64, tv_nsec: t.nsec() as i64 },
        None => Timespec { tv_sec: 0, tv_nsec: UTIME_OMIT },
    }
}

/// The `timeval` that writes `ft`: its nanoseconds are cut down to whole
/// microseconds.
pub open spec fn timeval_of(ft: FileTime) -> Timeval {
    Timeval { tv_sec: ft.sec() as i64, tv_usec: (ft.nsec() / 1000) as i64 }
}

/// A precise write stores a timestamp whole: the seconds and nanoseconds of
/// its `timespec`, read back as a timestamp, are the timestamp. A microsecond
/// write stores it with the digits below a microsecond set to zero.
pub proof fn lemma_write_precision(t: FileTime)
    requires
        t.valid(),
    ensures
        timespec_of(Some(t)).tv_sec == t.sec(),
        timespec_of(Some(t)).tv_nsec == t.nsec(),
        timespec_of(Some(t)).tv_nsec != UTIME_OMIT,
        timeval_of(t).tv_sec == t.sec(),
        timeval_of(t).tv_usec * 1000 == t.nsec() - t.nsec() % 1000,
        0 <= timeval_of(t).tv_usec < 1_000_000,
{
    t.lemma_seconds_fit();
}

/// Converts a requested timestamp to the `timespec` of a precise write.
pub fn to_timespec(ft: &Option<FileTime>) -> (r: Timespec)
    ensures
        r == timespec_of(*ft),
{
    match ft {
        Some(t) => Timespec { tv_sec: t.seconds(), tv_nsec: t.nanoseconds() as i64 },
        None => Timespec { tv_sec: 0, tv_nsec: UTIME_OMIT },
    }
}

/// Converts a timestamp to the `timeval` of a microsecond write, truncating
/// (not rounding) the nanoseconds.
pub fn to_timeval(ft: &FileTime) -> (r: Timeval)
    ensures
        r == timeval_of(*ft),
{
    Timeval { tv_sec: ft.seconds(), tv_usec: (ft.nanoseconds() / 1000) as i64 }
}

/// The timestamp fields of a `stat` result: seconds and nanoseconds of the
/// last access and modification, and of the creation where the system keeps
/// one.
#[derive(Debug, Clone, Copy, PartialEq, Eq)]
pub struct StatTimes {
    pub atime: i64,
    pub atime_nsec: i64,
    pub mtime: i64,
    pub mtime_nsec: i64,
    pub birthtime: Option<(i64, i64)>,
}

impl StatTimes {
    /// Every nanoseconds field is below one second, as the system gives them.
    pub open spec fn wf(self) -> bool {
        &&& 0 <= self.atime_nsec < NANOS_PER_SEC
        &&& 0 <= self.mtime_nsec < NANOS_PER_SEC
        &&& self.birthtime matches Some((_, n)) ==> 0 <= n < NANOS_PER_SEC
    }

    /// Tells whether the record is well formed.
    pub fn is_wf(&self) -> (r: bool)
        ensures
            r == self.wf(),
    {
        let ns = NANOS_PER_SEC as i64;
        let birth_ok = match self.birthtime {
            Some((_, n)) => 0 <= n && n < ns,
            None => true,
        };
        0 <= self.atime_nsec && self.atime_nsec < ns && 0 <= self.mtime_nsec && self.mtime_nsec < ns
            && birth_ok
    }
}

impl FileTime {
    /// Creates a timestamp from the last modification time of a `stat`
    /// result (its `mtime` field).
    pub fn from_last_modification_time(meta: &StatTimes) -> (r: FileTime)
        requires
            meta.wf(),
        ensures
            r.sec() == meta.mtime,
            r.nsec() == meta.mtime_nsec,
    {
        FileTime::from_os_repr(meta.mtime, meta.mtime_nsec)
    }

    /// Creates a timestamp from the last access time of a `stat` result (its
    /// `atime` field).
    pub fn from_last_access_time(meta: &StatTimes) -> (r: FileTime)
        requires
            meta.wf(),
        ensures
            r.sec() == meta.atime,
            r.nsec() == meta.atime_nsec,
    {
        FileTime::from_os_repr(meta.atime, meta.atime_nsec)
    }

    /// Creates a timestamp from the creation time of a `stat` result, or
    /// `None` where the system or the file system keeps no creation time.
    pub fn from_creation_time(meta: &StatTimes) -> (r: Option<FileTime>)
        requires
            meta.wf(),
        ensures
            meta.birthtime is None <==> r is None,
            meta.birthtime matches Some((s, n)) ==> r matches Some(t) && t.sec() == s && t.nsec()
                == n,
    {
        match meta.birthtime {
            Some((s, n)) => Some(FileTime::from_os_repr(s, n)),
            None => None,
        }
    }
}

} // verus!
