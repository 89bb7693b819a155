use proctime::clock::{measure, FileTime, ProcessTimes, TimingReport};
use proctime::handle::Handle;

fn stamp(ticks: u64) -> FileTime {
    FileTime { low: ticks as u32, high: (ticks >> 32) as u32 }
}

fn times(created: u64, exited: u64, kernel: u64, user: u64) -> ProcessTimes {
    ProcessTimes {
        created: stamp(created),
        exited: stamp(exited),
        kernel: stamp(kernel),
        user: stamp(user),
    }
}

#[test]
fn ticks_of_low_one_is_one() {
    let ticks = FileTime { low: 0x0000_0001, high: 0x0000_0000 }.ticks();
    assert_eq!(ticks, 1);
    assert_eq!(ticks as f64 * 1e-7, 0.0000001);
}

#[test]
fn ticks_put_the_high_word_above_the_low_word() {
    let ticks = FileTime { low: 0xFFFF_FFFF, high: 0x0000_0001 }.ticks();
    assert_eq!(ticks, 0x1_FFFF_FFFF);
    assert_eq!(ticks as f64 * 1e-7, 0x1_FFFF_FFFFu64 as f64 * 1e-7);
}

#[test]
fn ticks_of_zero_is_zero() {
    assert_eq!(FileTime { low: 0, high: 0 }.ticks(), 0);
}

#[test]
fn ticks_of_high_one_is_two_to_the_thirty_two() {
    assert_eq!(FileTime { low: 0, high: 1 }.ticks(), 4_294_967_296);
}

#[test]
fn ticks_of_all_ones_is_the_largest_count() {
    assert_eq!(FileTime { low: u32::MAX, high: u32::MAX }.ticks(), u64::MAX);
}

#[test]
fn ticks_of_a_date_of_today() {
    // The first instant of 2024, in ticks since the first instant of 1601.
    let ticks = FileTime { low: 0x7689_C000, high: 0x01DA_3C45 }.ticks();
    assert_eq!(ticks, 133_485_408_000_000_000);
}

#[test]
fn measure_takes_the_span_from_creation_to_exit() {
    let raw = times(133_000_000_000_000_000, 133_000_000_012_345_678, 1_500_000, 9_000_000);
    let report = measure(&raw, Handle { raw: 0x1A4 }, Handle { raw: usize::MAX });
    assert_eq!(
        report,
        TimingReport {
            created: 133_000_000_000_000_000,
            terminated: 133_000_000_012_345_678,
            user: 9_000_000,
            sys: 1_500_000,
        }
    );
    assert_eq!(report.real_ticks(), 12_345_678);
}

#[test]
fn measure_of_the_launcher_itself_has_no_span() {
    let raw = times(133_000_000_000_000_000, 0, 20, 30);
    let own = Handle { raw: usize::MAX };
    let report = measure(&raw, own, own);
    assert_eq!(report.terminated, report.created);
    assert_eq!(report.real_ticks(), 0);
    assert_eq!(report.user, 30);
    assert_eq!(report.sys, 20);
    let seconds = report.terminated as f64 * 1e-7 - report.created as f64 * 1e-7;
    assert_eq!(seconds, 0.0);
}

#[test]
fn measure_of_another_process_keeps_its_exit_time() {
    let raw = times(100, 0, 0, 0);
    let report = measure(&raw, Handle { raw: 8 }, Handle { raw: 12 });
    assert_eq!(report.terminated, 0);
    assert_eq!(report.real_ticks(), -100);
}

#[test]
fn measure_keeps_user_and_kernel_time_apart() {
    let raw = times(0, 10, 3, 4);
    let report = measure(&raw, Handle { raw: 1 }, Handle { raw: 2 });
    assert_eq!(report.sys, 3);
    assert_eq!(report.user, 4);
}

#[test]
fn durations_are_not_negative_where_exit_follows_creation() {
    let raw = times(5, 5, 0, u64::MAX);
    let report = measure(&raw, Handle { raw: 1 }, Handle { raw: 2 });
    assert!(report.real_ticks() >= 0);
    assert_eq!(report.real_ticks(), 0);
    assert_eq!(report.user, u64::MAX);
    assert_eq!(report.sys, 0);
}

#[test]
fn real_ticks_spans_the_whole_range() {
    let longest = TimingReport { created: 0, terminated: u64::MAX, user: 0, sys: 0 };
    assert_eq!(longest.real_ticks(), 18_446_744_073_709_551_615);
    let backwards = TimingReport { created: u64::MAX, terminated: 0, user: 0, sys: 0 };
    assert_eq!(backwards.real_ticks(), -18_446_744_073_709_551_615);
}

#[test]
fn user_and_kernel_time_may_exceed_the_span() {
    // Two threads that each compute for a second within one second of wall clock.
    let raw = times(1_000, 10_001_000, 0, 20_000_000);
    let report = measure(&raw, Handle { raw: 1 }, Handle { raw: 2 });
    assert_eq!(report.real_ticks(), 10_000_000);
    assert_eq!(report.user, 20_000_000);
}
