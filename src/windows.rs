use crate::time::{FileTime, NANOS_PER_SEC};
use vstd::prelude::*;

verus! {

/// Seconds from January 1, 1601, where Windows file times start, to January
/// 1, 1970.
pub const EPOCH_DIFFERENCE: i64 = 11_644_473_600;

/// Windows file-time intervals (100 nanoseconds each) in one second.
pub const INTERVALS_PER_SEC: u64 = 10_000_000;

/// A Windows `FILETIME`: a count of 100-nanosecond intervals since 1601, as
/// its low and high 32-bit words.
#[derive(Debug, Clone, Copy, PartialEq, Eq, Structural)]
pub struct WindowsFileTime {
    pub low: u32,
    pub high: u32,
}

impl WindowsFileTime {
    /// The count of intervals that the two words hold.
    pub open spec fn intervals(self) -> int {
        self.high * 0x1_0000_0000 + self.low
    }
}

/// The count of 100-nanosecond intervals that `ft` stands for, its seconds
/// counted from 1601; sub-interval nanoseconds are dropped.
pub open spec fn intervals_of(ft: FileTime) -> int {
    ft.sec() * INTERVALS_PER_SEC + ft.nsec() / 100
}

/// Creates a timestamp from a Windows file time, a count of 100-nanosecond
/// intervals since 1601. The seconds of the result count from 1601 too.
pub fn from_intervals(ticks: u64) -> (r: FileTime)
    ensures
        r.sec() == ticks / INTERVALS_PER_SEC,
        r.nsec() == (ticks % INTERVALS_PER_SEC) * 100,
        r.valid(),
        intervals_of(r) == ticks,
{
    let whole = (ticks / INTERVALS_PER_SEC) as i64;
    let part = ((ticks % INTERVALS_PER_SEC) * 100) as i64;
    assert(part < NANOS_PER_SEC);
    FileTime::from_os_repr(whole, part)
}

/// Converts a timestamp whose seconds count from 1601 to the Windows file
/// time that writes it, or `None` when its count of intervals is negative or
/// does not fit 64 bits.
pub fn to_filetime(ft: &FileTime) -> (r: Option<WindowsFileTime>)
    ensures
        r is Some <==> 0 <= intervals_of(*ft) <= u64::MAX,
        r matches Some(w) ==> w.intervals() == intervals_of(*ft),
{
    let secs = ft.seconds() as i128;
    assert(secs * 10_000_000 <= 0x7fff_ffff_ffff_ffff_ffff_ffff_ffff_ffff) by (nonlinear_arith)
        requires
            secs <= i64::MAX,
    ;
    assert(secs * 10_000_000 >= -0x7fff_ffff_ffff_ffff_ffff_ffff_0000_0000) by (nonlinear_arith)
        requires
            secs >= i64::MIN,
    ;
    let total = secs * (INTERVALS_PER_SEC as i128) + (ft.nanoseconds() / 100) as i128;
    if total < 0 || total > u64::MAX as i128 {
        None
    } else {
        let n = total as u64;
        let low = (n % 0x1_0000_0000) as u32;
        let high = (n / 0x1_0000_0000) as u32;
        Some(WindowsFileTime { low, high })
    }
}

/// Moves a timestamp whose seconds count from 1601 to one whose seconds count
/// from 1970, the reference of the Unix family.
pub fn rebase_from_1601(ft: &FileTime) -> (r: FileTime)
    requires
        ft.sec() - EPOCH_DIFFERENCE >= i64::MIN,
    ensures
        r.sec() == ft.sec() - EPOCH_DIFFERENCE,
        r.nsec() == ft.nsec(),
{
    FileTime::from_os_repr(ft.seconds() - EPOCH_DIFFERENCE, ft.nanoseconds() as i64)
}

/// Moves a timestamp whose seconds count from 1970 to one whose seconds count
/// from 1601, as Windows file times do.
pub fn rebase_to_1601(ft: &FileTime) -> (r: FileTime)
    requires
        ft.sec() + EPOCH_DIFFERENCE <= i64::MAX,
    ensures
        r.sec() == ft.sec() + EPOCH_DIFFERENCE,
        r.nsec() == ft.nsec(),
{
    FileTime::from_os_repr(ft.seconds() + EPOCH_DIFFERENCE, ft.nanoseconds() as i64)
}

} // verus!
