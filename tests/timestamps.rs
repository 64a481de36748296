use filetime::{
    from_intervals, rebase_from_1601, rebase_to_1601, redox_timespecs, EPOCH_DIFFERENCE, to_filetime, to_timespec, to_timeval, FileTime, RedoxTimespec,
    StatTimes, Timespec, Timeval, WindowsFileTime, WriteError, UTIME_OMIT,
};

fn stat(atime: i64, atime_nsec: i64, mtime: i64, mtime_nsec: i64, birthtime: Option<(i64, i64)>) -> StatTimes {
    StatTimes { atime, atime_nsec, mtime, mtime_nsec, birthtime }
}

#[test]
fn zero_is_zero() {
    let z = FileTime::zero();
    assert_eq!(z.seconds(), 0);
    assert_eq!(z.nanoseconds(), 0);
    assert_eq!(z, FileTime::from_seconds_since_1970(0, 0));
}

#[test]
fn modification_time_set_to_ten_thousand() {
    let new_mtime = FileTime::from_seconds_since_1970(10_000, 0);
    assert_eq!(new_mtime.seconds_relative_to_1970(), 10_000);
    assert_eq!(new_mtime.nanoseconds(), 0);
    let meta = stat(5, 0, 10_000, 0, None);
    assert_eq!(FileTime::from_last_modification_time(&meta), new_mtime);
}

#[test]
fn nanoseconds_carry_into_seconds() {
    let t = FileTime::from_seconds_since_1970(7, 2_500_000_000);
    assert_eq!(t.seconds(), 9);
    assert_eq!(t.nanoseconds(), 500_000_000);
}

#[test]
fn seconds_read_back_relative_to_1970() {
    for &(s, n) in &[(0i64, 0u32), (1, 999_999_999), (1_700_000_000, 123_456_789), (i64::MAX, 0)] {
        let t = FileTime::from_seconds_since_1970(s, n);
        assert_eq!(t.seconds_relative_to_1970(), s);
        assert_eq!(t.seconds(), s);
        assert_eq!(t.nanoseconds(), n);
    }
}

#[test]
fn earlier_seconds_compare_less() {
    let a = FileTime::from_seconds_since_1970(5, 999_999_999);
    let b = FileTime::from_seconds_since_1970(6, 0);
    assert!(a < b);
    assert!(b > a);
    assert_eq!(a.max(b), b);
    let c = FileTime::from_seconds_since_1970(6, 1);
    assert!(b < c);
    assert!(FileTime::zero() < a);
    assert_eq!(std::cmp::max(FileTime::zero(), c), c);
}

#[test]
fn text_pads_nanoseconds_to_nine_digits() {
    assert_eq!(FileTime::from_seconds_since_1970(10_000, 0).to_string(), "10000.000000000s");
    assert_eq!(FileTime::from_seconds_since_1970(1, 5).to_string(), "1.000000005s");
    assert_eq!(FileTime::from_seconds_since_1970(-3, 120_000_000).to_string(), "-3.120000000s");
    assert_eq!(FileTime::zero().to_string(), "0.000000000s");
    let chars: String = FileTime::from_seconds_since_1970(42, 7).render().into_iter().collect();
    assert_eq!(chars, "42.000000007s");
}

#[test]
fn stat_fields_read_as_timestamps() {
    let meta = stat(100, 7, 200, 999_999_999, None);
    assert!(meta.is_wf());
    let a = FileTime::from_last_access_time(&meta);
    let m = FileTime::from_last_modification_time(&meta);
    assert_eq!((a.seconds(), a.nanoseconds()), (100, 7));
    assert_eq!((m.seconds(), m.nanoseconds()), (200, 999_999_999));
    assert!(a < m);
}

#[test]
fn creation_time_absent_without_birth_time() {
    let meta = stat(1, 0, 2, 0, None);
    assert_eq!(FileTime::from_creation_time(&meta), None);
    let meta = stat(1, 0, 2, 0, Some((3, 4)));
    let c = FileTime::from_creation_time(&meta).unwrap();
    assert_eq!((c.seconds(), c.nanoseconds()), (3, 4));
}

#[test]
fn malformed_stat_is_detected() {
    assert!(!stat(1, 1_000_000_000, 2, 0, None).is_wf());
    assert!(!stat(1, 0, 2, -1, None).is_wf());
    assert!(!stat(1, 0, 2, 0, Some((0, 1_000_000_000))).is_wf());
}

#[test]
fn timespec_keeps_nanoseconds() {
    let t = FileTime::from_seconds_since_1970(1_234, 567_891_234);
    assert_eq!(to_timespec(&Some(t)), Timespec { tv_sec: 1_234, tv_nsec: 567_891_234 });
}

#[test]
fn missing_time_is_omitted_in_timespec() {
    assert_eq!(to_timespec(&None), Timespec { tv_sec: 0, tv_nsec: UTIME_OMIT });
    assert_eq!(UTIME_OMIT, 1073741822);
}

#[test]
fn timeval_truncates_to_microseconds() {
    let t = FileTime::from_seconds_since_1970(1_234, 567_891_999);
    assert_eq!(to_timeval(&t), Timeval { tv_sec: 1_234, tv_usec: 567_891 });
    let back = FileTime::from_os_repr(1_234, 567_891 * 1000);
    assert_eq!(back.nanoseconds(), 567_891_000);
}

#[test]
fn windows_ticks_count_from_1601() {
    let t = from_intervals(0);
    assert_eq!((t.seconds(), t.nanoseconds()), (0, 0));
    let t = from_intervals(12_345_678);
    assert_eq!((t.seconds(), t.nanoseconds()), (1, 234_567_800));
    let t = from_intervals(116_444_736_000_000_000);
    assert_eq!((t.seconds(), t.nanoseconds()), (11_644_473_600, 0));
}

#[test]
fn windows_epoch_rebases_to_1970() {
    let t = rebase_from_1601(&from_intervals(116_444_736_000_000_000 + 12_345_678));
    assert_eq!((t.seconds(), t.nanoseconds()), (1, 234_567_800));
    let back = rebase_to_1601(&FileTime::from_seconds_since_1970(0, 5));
    assert_eq!((back.seconds(), back.nanoseconds()), (EPOCH_DIFFERENCE, 5));
}

#[test]
fn timestamps_to_windows_words() {
    let w = to_filetime(&FileTime::zero()).unwrap();
    assert_eq!(w, WindowsFileTime { low: 0, high: 0 });
    let w = to_filetime(&FileTime::from_seconds_since_1970(11_644_473_600, 0)).unwrap();
    assert_eq!(w, WindowsFileTime { low: 3_577_643_008, high: 27_111_902 });
    let t = FileTime::from_seconds_since_1970(1, 234_567_899);
    let w = to_filetime(&t).unwrap();
    let n = ((w.high as u64) << 32) | w.low as u64;
    assert_eq!(n, 12_345_678);
    assert_eq!(from_intervals(n), FileTime::from_seconds_since_1970(1, 234_567_800));
}

#[test]
fn times_outside_windows_range_are_refused() {
    assert_eq!(to_filetime(&FileTime::from_seconds_since_1970(-1, 0)), None);
    assert_eq!(to_filetime(&FileTime::from_seconds_since_1970(i64::MAX, 0)), None);
    assert!(to_filetime(&FileTime::from_seconds_since_1970(1_844_674_407_370, 0)).is_some());
    assert_eq!(to_filetime(&FileTime::from_seconds_since_1970(1_844_674_407_371, 0)), None);
}

#[test]
fn redox_sends_both_times_or_none() {
    let a = FileTime::from_seconds_since_1970(10, 20);
    let m = FileTime::from_seconds_since_1970(30, 40);
    assert_eq!(
        redox_timespecs(Some(a), Some(m)),
        Ok(Some((RedoxTimespec { tv_sec: 10, tv_nsec: 20 }, RedoxTimespec { tv_sec: 30, tv_nsec: 40 })))
    );
    assert_eq!(redox_timespecs(None, None), Ok(None));
}

#[test]
fn redox_refuses_one_time_alone() {
    let a = FileTime::from_seconds_since_1970(10, 20);
    assert_eq!(redox_timespecs(Some(a), None), Err(WriteError::Unsupported));
    assert_eq!(redox_timespecs(None, Some(a)), Err(WriteError::Unsupported));
}
