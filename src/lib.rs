//! File timestamps: one ordered value type for the access, modification and
//! creation times of files, and the conversions between it and the native
//! representations that operating systems read and write.
//!
//! Writes on Linux are planned by a small state machine (`linux`): it prefers
//! the nanosecond primitives, and falls back for the rest of the process to
//! the microsecond ones when they are missing or refused. The caller performs
//! each action that it returns and reports what came of it.
pub mod error;
pub mod linux;
pub mod native;
pub mod redox;
pub mod text;
pub mod time;
pub mod windows;

pub use error::{from_os_status, WriteError};
pub use linux::{
    set_file_atime, set_file_handle_times, set_file_mtime, set_file_times, set_symlink_file_times, set_times,
    Action, Capability, Event, Lookup, Phase, Target, TimesUpdate, TimesWrite,
};
pub use native::{to_timespec, to_timeval, StatTimes, Timespec, Timeval, UTIME_OMIT};
pub use redox::{redox_timespecs, RedoxTimespec};
pub use time::{FileTime, NANOS_PER_SEC};
pub use windows::{from_intervals, rebase_from_1601, rebase_to_1601, to_filetime, WindowsFileTime, EPOCH_DIFFERENCE, INTERVALS_PER_SEC};
