use crate::error::{from_os_status, os_outcome, WriteError};
use crate::native::{timespec_of, timeval_of, to_timespec, to_timeval, Timespec, Timeval};
use crate::time::FileTime;
use vstd::prelude::*;

verus! {

/// What the process has learnt of a nanosecond-precision write primitive
/// (`utimensat` or `futimens`) by looking its symbol up.
#[derive(Debug, Clone, Copy, PartialEq, Eq, Structural)]
pub enum Lookup {
    /// Not looked up yet.
    Unresolved,
    /// The C library of the running process does not have it.
    Missing,
    /// The C library has it.
    Found,
}

/// Process-wide knowledge of one precise write primitive: whether its symbol
/// was found, and whether the kernel has refused it as not implemented.
///
/// Both parts only ever move one way: a lookup is answered once, and a
/// refusal is never forgotten.
#[derive(Debug, Clone, Copy)]
pub struct Capability {
    lookup: Lookup,
    rejected: bool,
    nosys: i32,
}

impl Capability {
    pub closed spec fn lookup(self) -> Lookup {
        self.lookup
    }

    pub closed spec fn rejected(self) -> bool {
        self.rejected
    }

    /// The error code that marks a refusal as "not implemented".
    pub closed spec fn nosys(self) -> i32 {
        self.nosys
    }

    /// The precise primitive is known not to be usable: its symbol is missing
    /// or the kernel refused it.
    pub open spec fn unavailable(self) -> bool {
        self.lookup() is Missing || self.rejected()
    }

    /// Whether `next` knows at least what `self` knows.
    pub open spec fn grows_to(self, next: Capability) -> bool {
        &&& self.rejected() ==> next.rejected()
        &&& !(self.lookup() is Unresolved) ==> next.lookup() == self.lookup()
        &&& next.nosys() == self.nosys()
    }

    /// Knowledge at the start of a process: nothing looked up, nothing
    /// refused. `nosys` is the error code with which the kernel refuses a
    /// system call that it does not implement (`ENOSYS`).
    pub fn new(nosys: i32) -> (r: Capability)
        ensures
            r.lookup() is Unresolved,
            !r.rejected(),
            r.nosys() == nosys,
    {
        Capability { lookup: Lookup::Unresolved, rejected: false, nosys }
    }

    /// Whether the precise primitive is known not to be usable.
    pub fn is_unavailable(&self) -> (r: bool)
        ensures
            r == self.unavailable(),
    {
        match self.lookup {
            Lookup::Missing => true,
            _ => self.rejected,
        }
    }

    /// The error code that marks a refusal as "not implemented".
    pub fn not_implemented_code(&self) -> (r: i32)
        ensures
            r == self.nosys(),
    {
        self.nosys
    }
}

/// How a write reaches its file.
#[derive(Debug, Clone, Copy, PartialEq, Eq, Structural)]
pub enum Target {
    /// By path, following a symbolic link.
    Path,
    /// By path, changing a symbolic link itself.
    Symlink,
    /// Through a file that is already open.
    Handle,
}

/// A request to change the access and modification times of a file; a
/// missing time is to be left as it is.
#[derive(Debug, Clone, Copy, PartialEq, Eq, Structural)]
pub struct TimesUpdate {
    pub target: Target,
    pub atime: Option<FileTime>,
    pub mtime: Option<FileTime>,
}

impl TimesUpdate {
    /// The write must not follow a symbolic link.
    pub open spec fn nofollow(self) -> bool {
        self.target is Symlink
    }
}

/// Where a write stands.
#[derive(Debug, Clone, Copy, PartialEq, Eq, Structural)]
pub enum Phase {
    /// Waiting for the lookup of the precise primitive.
    Resolving,
    /// Waiting for the status of a precise write.
    Precise,
    /// Waiting for the current times of the file.
    Reading,
    /// Waiting for the status of a microsecond write.
    Coarse,
    /// Finished.
    Done,
}

/// What the caller is to do next for a write.
#[derive(Debug, Clone, Copy, PartialEq, Eq)]
pub enum Action {
    /// Look the precise primitive up in the running process, then report
    /// `Event::Resolved`.
    Resolve,
    /// Call the precise primitive with these values (with the "do not
    /// follow" flag if `nofollow`), then report `Event::Wrote`.
    WritePrecise { atime: Timespec, mtime: Timespec, nofollow: bool },
    /// Read the file's current times, then report `Event::Current`.
    ReadCurrent,
    /// Call the microsecond primitive with these values (`lutimes` if
    /// `nofollow`), then report `Event::Wrote`.
    WriteCoarse { atime_us: Timeval, mtime_us: Timeval, nofollow: bool },
    /// The write is over, with this outcome.
    Finish(Result<(), WriteError>),
}

/// What the caller reports after doing an action.
#[derive(Debug, Clone, Copy, PartialEq, Eq)]
pub enum Event {
    /// Whether the lookup found the precise primitive.
    Resolved(bool),
    /// The status of a write: success, or the system's error code.
    Wrote(Result<(), i32>),
    /// The file's current access and modification times.
    Current(FileTime, FileTime),
}

/// The precise write of an update.
pub open spec fn precise_action(u: TimesUpdate) -> Action {
    Action::WritePrecise {
        atime: timespec_of(u.atime),
        mtime: timespec_of(u.mtime),
        nofollow: u.nofollow(),
    }
}

/// The microsecond write of two timestamps.
pub open spec fn coarse_action(u: TimesUpdate, atime: FileTime, mtime: FileTime) -> Action {
    Action::WriteCoarse { atime_us: timeval_of(atime), mtime_us: timeval_of(mtime), nofollow: u.nofollow() }
}

/// The first step of an update on the microsecond path: write both times
/// when both are given, finish at once when none is, and otherwise read the
/// current times first to fill in the missing one.
pub open spec fn coarse_entry(u: TimesUpdate) -> (Phase, Action) {
    match (u.atime, u.mtime) {
        (Some(a), Some(m)) => (Phase::Coarse, coarse_action(u, a, m)),
        (None, None) => (Phase::Done, Action::Finish(Ok(()))),
        _ => (Phase::Reading, Action::ReadCurrent),
    }
}

/// The first step of an update, given what the process knows.
pub open spec fn first_step(cap: Capability, u: TimesUpdate) -> (Phase, Action) {
    if cap.unavailable() {
        coarse_entry(u)
    } else if cap.lookup() is Unresolved {
        (Phase::Resolving, Action::Resolve)
    } else {
        (Phase::Precise, precise_action(u))
    }
}

/// The times that a microsecond write applies once the current times of the
/// file are known: each requested time, or else the current one.
pub open spec fn filled(u: TimesUpdate, cur_atime: FileTime, cur_mtime: FileTime) -> (FileTime, FileTime) {
    (
        match u.atime {
            Some(a) => a,
            None => cur_atime,
        },
        match u.mtime {
            Some(m) => m,
            None => cur_mtime,
        },
    )
}

/// Whether `event` answers the action that a write in `phase` waits on.
pub open spec fn answers(phase: Phase, event: Event) -> bool {
    match phase {
        Phase::Resolving => event is Resolved,
        Phase::Precise | Phase::Coarse => event is Wrote,
        Phase::Reading => event is Current,
        Phase::Done => false,
    }
}

/// A write of file times in progress.
///
/// On Linux the precise primitives (`utimensat`, `futimens`) may be missing
/// from the C library or refused by an older kernel. A write then falls back
/// to the microsecond primitives (`utimes`, `lutimes`, `futimes`), which
/// cannot leave one time alone: a missing time is filled in from the file's
/// current times.
#[derive(Debug, Clone, Copy)]
pub struct TimesWrite {
    update: TimesUpdate,
    phase: Phase,
}

impl TimesWrite {
    pub closed spec fn update(self) -> TimesUpdate {
        self.update
    }

    pub closed spec fn phase(self) -> Phase {
        self.phase
    }

    fn coarse_entry(u: TimesUpdate) -> (r: (Phase, Action))
        ensures
            r == coarse_entry(u),
    {
        match (u.atime, u.mtime) {
            (Some(a), Some(m)) => (
                Phase::Coarse,
                Action::WriteCoarse {
                    atime_us: to_timeval(&a),
                    mtime_us: to_timeval(&m),
                    nofollow: matches!(u.target, Target::Symlink),
                },
            ),
            (None, None) => (Phase::Done, Action::Finish(Ok(()))),
            _ => (Phase::Reading, Action::ReadCurrent),
        }
    }

    fn precise_action(u: TimesUpdate) -> (r: Action)
        ensures
            r == precise_action(u),
    {
        Action::WritePrecise {
            atime: to_timespec(&u.atime),
            mtime: to_timespec(&u.mtime),
            nofollow: matches!(u.target, Target::Symlink),
        }
    }

    /// Starts a write: returns it with the first action to take.
    pub fn start(cap: &Capability, update: TimesUpdate) -> (r: (TimesWrite, Action))
        ensures
            r.0.update() == update,
            (r.0.phase(), r.1) == first_step(*cap, update),
    {
        let (phase, action) = if cap.is_unavailable() {
            TimesWrite::coarse_entry(update)
        } else if matches!(cap.lookup, Lookup::Unresolved) {
            (Phase::Resolving, Action::Resolve)
        } else {
            (Phase::Precise, TimesWrite::precise_action(update))
        };
        (TimesWrite { update, phase }, action)
    }

    /// Takes the answer to the pending action and returns the next action.
    ///
    /// A precise write that the kernel refuses as not implemented marks the
    /// primitive unusable for the whole process and is retried at once on the
    /// microsecond path; any other status of a write ends it.
    pub fn resume(&mut self, cap: &mut Capability, event: Event) -> (r: Action)
        requires
            answers(old(self).phase(), event),
        ensures
            final(self).update() == old(self).update(),
            old(cap).grows_to(*final(cap)),
            match (old(self).phase(), event) {
                (Phase::Resolving, Event::Resolved(found)) => {
                    &&& final(cap).rejected() == old(cap).rejected()
                    &&& final(cap).lookup() == if old(cap).lookup() is Unresolved {
                        if found {
                            Lookup::Found
                        } else {
                            Lookup::Missing
                        }
                    } else {
                        old(cap).lookup()
                    }
                    &&& (final(self).phase(), r) == if final(cap).unavailable() {
                        coarse_entry(old(self).update())
                    } else {
                        (Phase::Precise, precise_action(old(self).update()))
                    }
                },
                (Phase::Precise, Event::Wrote(status)) => {
                    if status == Err::<(), i32>(old(cap).nosys()) {
                        &&& final(cap).rejected()
                        &&& final(cap).lookup() == old(cap).lookup()
                        &&& (final(self).phase(), r) == coarse_entry(old(self).update())
                    } else {
                        &&& *final(cap) == *old(cap)
                        &&& final(self).phase() == Phase::Done
                        &&& r == Action::Finish(os_outcome(status))
                    }
                },
                (Phase::Reading, Event::Current(cur_atime, cur_mtime)) => {
                    let times = filled(old(self).update(), cur_atime, cur_mtime);
                    &&& *final(cap) == *old(cap)
                    &&& final(self).phase() == Phase::Coarse
                    &&& r == coarse_action(old(self).update(), times.0, times.1)
                },
                (Phase::Coarse, Event::Wrote(status)) => {
                    &&& *final(cap) == *old(cap)
                    &&& final(self).phase() == Phase::Done
                    &&& r == Action::Finish(os_outcome(status))
                },
                _ => false,
            },
    {
        let u = self.update;
        match (self.phase, event) {
            (Phase::Resolving, Event::Resolved(found)) => {
                if matches!(cap.lookup, Lookup::Unresolved) {
                    cap.lookup = if found {
                        Lookup::Found
                    } else {
                        Lookup::Missing
                    };
                }
                let (phase, action) = if cap.is_unavailable() {
                    TimesWrite::coarse_entry(u)
                } else {
                    (Phase::Precise, TimesWrite::precise_action(u))
                };
                self.phase = phase;
                action
            },
            (Phase::Precise, Event::Wrote(status)) => {
                let refused = match status {
                    Err(code) => code == cap.nosys,
                    Ok(()) => false,
                };
                if refused {
                    cap.rejected = true;
                    let (phase, action) = TimesWrite::coarse_entry(u);
                    self.phase = phase;
                    action
                } else {
                    self.phase = Phase::Done;
                    Action::Finish(from_os_status(status))
                }
            },
            (Phase::Reading, Event::Current(cur_atime, cur_mtime)) => {
                let atime = match u.atime {
                    Some(a) => a,
                    None => cur_atime,
                };
                let mtime = match u.mtime {
                    Some(m) => m,
                    None => cur_mtime,
                };
                self.phase = Phase::Coarse;
                Action::WriteCoarse {
                    atime_us: to_timeval(&atime),
                    mtime_us: to_timeval(&mtime),
                    nofollow: matches!(u.target, Target::Symlink),
                }
            },
            (_, Event::Wrote(status)) => {
                self.phase = Phase::Done;
                Action::Finish(from_os_status(status))
            },
            // no other pair answers a pending action
            _ => Action::Finish(Err(WriteError::Unsupported)),
        }
    }

    /// How the write reaches its file.
    pub fn target(&self) -> (r: Target)
        ensures
            r == self.update().target,
    {
        self.update.target
    }

    /// Where the write stands.
    pub fn current_phase(&self) -> (r: Phase)
        ensures
            r == self.phase(),
    {
        self.phase
    }

    /// Whether `event` answers the action that this write waits on.
    pub fn awaits(&self, event: &Event) -> (r: bool)
        ensures
            r == answers(self.phase(), *event),
    {
        match (self.phase, event) {
            (Phase::Resolving, Event::Resolved(_)) => true,
            (Phase::Precise, Event::Wrote(_)) => true,
            (Phase::Coarse, Event::Wrote(_)) => true,
            (Phase::Reading, Event::Current(_, _)) => true,
            _ => false,
        }
    }
}

/// Once the precise primitive is known to be unusable it stays so, and every
/// write that starts from then on takes the microsecond path: it neither
/// looks the primitive up again nor calls it, and writes the requested times
/// cut down to microseconds.
pub proof fn lemma_fallback_is_stable(cap: Capability, later: Capability, u: TimesUpdate)
    requires
        cap.unavailable(),
        cap.grows_to(later),
    ensures
        later.unavailable(),
        first_step(later, u) == coarse_entry(u),
        !(first_step(later, u).1 is Resolve),
        !(first_step(later, u).1 is WritePrecise),
        u.atime matches Some(a) ==> u.mtime matches Some(m) ==> first_step(later, u).1 == (
        Action::WriteCoarse { atime_us: timeval_of(a), mtime_us: timeval_of(m), nofollow: u.nofollow() }),
{
}

/// Writing the same pair of times again sends the same values. With both
/// times given the file's current times play no part; a later write of the
/// pair goes straight to the write that an earlier one ended on (the precise
/// write while the primitive is known to work, the microsecond write once it
/// is known not to); and the microsecond write of a time that a microsecond
/// write stored is that same write again.
pub proof fn lemma_repeat_write_sends_same(
    cap: Capability,
    later: Capability,
    u: TimesUpdate,
    atime: FileTime,
    mtime: FileTime,
    cur_atime: FileTime,
    cur_mtime: FileTime,
    stored: FileTime,
)
    requires
        u.atime == Some(atime),
        u.mtime == Some(mtime),
        cap.grows_to(later),
    ensures
        filled(u, cur_atime, cur_mtime) == (atime, mtime),
        cap.lookup() is Found && !later.rejected() ==> first_step(later, u) == (
        Phase::Precise, precise_action(u)),
        cap.unavailable() ==> first_step(later, u) == (Phase::Coarse, coarse_action(u, atime, mtime)),
        stored.sec() == atime.sec() && stored.nsec() == timeval_of(atime).tv_usec * 1000
            ==> timeval_of(stored) == timeval_of(atime),
{
}

/// A write of the modification time alone keeps the access time: the
/// precise write leaves it out, and the microsecond write puts back the
/// access time that the file had.
pub proof fn lemma_single_field_fill(mtime: FileTime, cur_atime: FileTime, cur_mtime: FileTime)
    ensures
        ({
            let u = TimesUpdate { target: Target::Path, atime: None, mtime: Some(mtime) };
            let times = filled(u, cur_atime, cur_mtime);
            &&& precise_action(u) == (Action::WritePrecise {
                atime: Timespec { tv_sec: 0, tv_nsec: crate::native::UTIME_OMIT },
                mtime: timespec_of(Some(mtime)),
                nofollow: false,
            })
            &&& coarse_entry(u) == (Phase::Reading, Action::ReadCurrent)
            &&& coarse_action(u, times.0, times.1) == (Action::WriteCoarse {
                atime_us: timeval_of(cur_atime),
                mtime_us: timeval_of(mtime),
                nofollow: false,
            })
        }),
{
}

/// A write to a symbolic link itself never follows the link, and a write by
/// path always does: every write action of the update says so.
pub proof fn lemma_symlink_isolation(u: TimesUpdate, atime: FileTime, mtime: FileTime)
    ensures
        precise_action(u)->WritePrecise_nofollow == (u.target is Symlink),
        coarse_action(u, atime, mtime)->WriteCoarse_nofollow == (u.target is Symlink),
{
}

/// Starts a write of the access and modification times of the file at a
/// path; `symlink` asks to change a symbolic link itself rather than the file
/// that it points to. A missing time is left as it is.
pub fn set_times(cap: &Capability, atime: Option<FileTime>, mtime: Option<FileTime>, symlink: bool) -> (r: (TimesWrite, Action))
    ensures
        r.0.update() == (TimesUpdate {
            target: if symlink { Target::Symlink } else { Target::Path },
            atime,
            mtime,
        }),
        (r.0.phase(), r.1) == first_step(*cap, r.0.update()),
{
    let target = if symlink {
        Target::Symlink
    } else {
        Target::Path
    };
    TimesWrite::start(cap, TimesUpdate { target, atime, mtime })
}

/// Starts a write of both times of the file at a path, following a symbolic
/// link.
pub fn set_file_times(cap: &Capability, atime: FileTime, mtime: FileTime) -> (r: (TimesWrite, Action))
    ensures
        r.0.update() == (TimesUpdate { target: Target::Path, atime: Some(atime), mtime: Some(mtime) }),
        (r.0.phase(), r.1) == first_step(*cap, r.0.update()),
{
    set_times(cap, Some(atime), Some(mtime), false)
}

/// Starts a write of both times of a symbolic link itself, not of the file
/// that it points to.
pub fn set_symlink_file_times(cap: &Capability, atime: FileTime, mtime: FileTime) -> (r: (TimesWrite, Action))
    ensures
        r.0.update() == (TimesUpdate { target: Target::Symlink, atime: Some(atime), mtime: Some(mtime) }),
        (r.0.phase(), r.1) == first_step(*cap, r.0.update()),
{
    set_times(cap, Some(atime), Some(mtime), true)
}

/// Starts a write of the modification time of the file at a path; its access
/// time stays as it is.
pub fn set_file_mtime(cap: &Capability, mtime: FileTime) -> (r: (TimesWrite, Action))
    ensures
        r.0.update() == (TimesUpdate { target: Target::Path, atime: None, mtime: Some(mtime) }),
        (r.0.phase(), r.1) == first_step(*cap, r.0.update()),
{
    set_times(cap, None, Some(mtime), false)
}

/// Starts a write of the access time of the file at a path; its modification
/// time stays as it is.
pub fn set_file_atime(cap: &Capability, atime: FileTime) -> (r: (TimesWrite, Action))
    ensures
        r.0.update() == (TimesUpdate { target: Target::Path, atime: Some(atime), mtime: None }),
        (r.0.phase(), r.1) == first_step(*cap, r.0.update()),
{
    set_times(cap, Some(atime), None, false)
}

/// Starts a write of the times of an open file; a missing time is left as it
/// is.
pub fn set_file_handle_times(cap: &Capability, atime: Option<FileTime>, mtime: Option<FileTime>) -> (r: (TimesWrite, Action))
    ensures
        r.0.update() == (TimesUpdate { target: Target::Handle, atime, mtime }),
        (r.0.phase(), r.1) == first_step(*cap, r.0.update()),
{
    TimesWrite::start(cap, TimesUpdate { target: Target::Handle, atime, mtime })
}

} // verus!
