use crate::error::WriteError;
use crate::time::FileTime;
use vstd::prelude::*;

verus! {

/// A Redox `TimeSpec`: seconds, and nanoseconds as a 32-bit integer.
#[derive(Debug, Clone, Copy, PartialEq, Eq, Structural)]
pub struct RedoxTimespec {
    pub tv_sec: i64,
    pub tv_nsec: i32,
}

/// The Redox `TimeSpec` that writes `ft`.
pub open spec fn redox_timespec_of(ft: FileTime) -> RedoxTimespec {
    RedoxTimespec { tv_sec: ft.sec() as i64, tv_nsec: ft.nsec() as i32 }
}

/// The pair that a Redox write sends for a request. Redox sets both times at
/// once: with both given they are sent, with none there is nothing to do
/// (`None`), and a request for one alone is unsupported.
pub fn redox_timespecs(atime: Option<FileTime>, mtime: Option<FileTime>) -> (r: Result<Option<(RedoxTimespec, RedoxTimespec)>, WriteError>)
    ensures
        match (atime, mtime) {
            (Some(a), Some(m)) => r == Ok::<_, WriteError>(Some((redox_timespec_of(a), redox_timespec_of(m)))),
            (None, None) => r == Ok::<Option<(RedoxTimespec, RedoxTimespec)>, WriteError>(None),
            _ => r == Err::<Option<(RedoxTimespec, RedoxTimespec)>, WriteError>(WriteError::Unsupported),
        },
{
    match (atime, mtime) {
        (Some(a), Some(m)) => {
            let at = RedoxTimespec { tv_sec: a.seconds(), tv_nsec: a.nanoseconds() as i32 };
            let mt = RedoxTimespec { tv_sec: m.seconds(), tv_nsec: m.nanoseconds() as i32 };
            Ok(Some((at, mt)))
        },
        (None, None) => Ok(None),
        _ => Err(WriteError::Unsupported),
    }
}

} // verus!
