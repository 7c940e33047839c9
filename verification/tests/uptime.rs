use alumy::sys::uptime::{uptime, uptime_duration, uptime_stamp, Uptime};

#[test]
fn uptime_test_uptime() {
    let u = uptime(0, 1, 0);
    // a system has been up for at least one second
    assert!(u > 0);
}

#[test]
fn uptime_test_uptime_duration() {
    let d = uptime_duration(0, 0, 1_000_000);
    assert!(d.as_secs() * 1000 + d.subsec_millis() as u64 > 0);
}

#[test]
fn sys_uptime_test_uptime() {
    let up = uptime(0, 86_400, 999_999_999);

    assert!(up > 0);
}

#[test]
fn test_uptime_consistency() {
    let up1 = uptime(0, 100, 990_000_000);
    let up2 = uptime(0, 101, 0);
    assert!(up2 >= up1);
}

#[test]
fn sys_uptime_test_uptime_duration() {
    let duration = uptime_duration(0, 4711, 500_000_000);
    assert!(duration.as_secs() > 0);

    let up = uptime(0, 4711, 600_000_000);

    let diff = if duration.as_secs() > up {
        duration.as_secs() - up
    } else {
        up - duration.as_secs()
    };

    assert!(
        diff <= 1,
        "uptime_duration ({}s) and uptime ({}s) differ by more than 1s",
        duration.as_secs(),
        up
    );
}

#[test]
fn a_reading_gives_its_seconds() {
    assert_eq!(uptime(0, 0, 0), 0);
    assert_eq!(uptime(0, 0, 999_999_999), 0);
    assert_eq!(uptime(0, 12, 999_999_999), 12);
    assert_eq!(uptime(0, u64::MAX, 999_999_999), u64::MAX);
    let d = uptime_duration(0, 12, 345_678_901);
    assert_eq!(d.as_secs(), 12);
    assert_eq!(d.subsec_millis(), 345);
    assert_eq!(d.subsec_nanos(), 345_678_901);
}

#[test]
fn a_failed_reading_gives_nothing() {
    assert_eq!(uptime(-1, 12, 5), 0);
    assert_eq!(uptime(22, u64::MAX, u32::MAX), 0);
    assert_eq!(uptime_duration(-1, 12, 5), Uptime::zero());
}

#[test]
fn whole_seconds_in_the_nanoseconds_are_carried() {
    let d = Uptime::new(5, 2_500_000_000);
    assert_eq!(d.as_secs(), 7);
    assert_eq!(d.subsec_nanos(), 500_000_000);
    assert_eq!(d, Uptime::new(7, 500_000_000));
    let d = Uptime::new(u64::MAX - 4, u32::MAX);
    assert_eq!(d.as_secs(), u64::MAX);
    assert_eq!(d.subsec_nanos(), 294_967_295);
    assert_eq!(uptime(0, 1, 1_000_000_000), 2);
}

#[test]
fn the_stamp_has_six_columns_of_seconds_and_three_digits() {
    assert_eq!(uptime_stamp(&Uptime::zero()), "[     0.000]");
    assert_eq!(uptime_stamp(&Uptime::new(412, 73_000_000)), "[   412.073]");
    assert_eq!(uptime_stamp(&Uptime::new(5, 999_999_999)), "[     5.999]");
    assert_eq!(uptime_stamp(&Uptime::new(123456, 1_000_000)), "[123456.001]");
    assert_eq!(uptime_stamp(&Uptime::new(1234567, 120_000_000)), "[1234567.120]");
    assert_eq!(uptime_stamp(&Uptime::new(u64::MAX, 0)), "[18446744073709551615.000]");
    for (secs, nanos) in [(0u64, 0u32), (9, 9_000_000), (99_999, 99_000_000), (100_000, 100_000_000)] {
        let d = Uptime::new(secs, nanos);
        assert_eq!(
            uptime_stamp(&d),
            format!("[{:>6}.{:03}]", d.as_secs(), d.subsec_millis())
        );
    }
}
