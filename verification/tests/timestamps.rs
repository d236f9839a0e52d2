use file_session::timestamp::NANOS_PER_SEC;
use file_session::Timestamp;

#[test]
fn nanos_round_trip() {
    assert_eq!(Timestamp::from_unix_nanos(0).unix_nanos(), 0);
    assert_eq!(Timestamp::from_unix_nanos(-1).unix_nanos(), -1);
    assert_eq!(Timestamp::from_unix_nanos(i128::MAX).unix_nanos(), i128::MAX);
    assert_eq!(Timestamp::from_unix_nanos(i128::MIN).unix_nanos(), i128::MIN);
}

#[test]
fn after_epoch_counts_nanoseconds() {
    assert_eq!(NANOS_PER_SEC, 1_000_000_000);
    assert_eq!(Timestamp::after_epoch(0, 0).unix_nanos(), 0);
    assert_eq!(Timestamp::after_epoch(1, 5).unix_nanos(), 1_000_000_005);
    assert_eq!(
        Timestamp::after_epoch(1_700_000_000, 123_456_789).unix_nanos(),
        1_700_000_000_123_456_789
    );
    assert_eq!(
        Timestamp::after_epoch(u64::MAX, u32::MAX).unix_nanos(),
        18_446_744_073_709_551_615_000_000_000 + 4_294_967_295
    );
}

#[test]
fn before_epoch_counts_backwards() {
    assert_eq!(Timestamp::before_epoch(0, 0).unix_nanos(), 0);
    assert_eq!(Timestamp::before_epoch(0, 1).unix_nanos(), -1);
    assert_eq!(Timestamp::before_epoch(1, 5).unix_nanos(), -1_000_000_005);
    assert_eq!(
        Timestamp::before_epoch(u64::MAX, u32::MAX).unix_nanos(),
        -(18_446_744_073_709_551_615_000_000_000 + 4_294_967_295)
    );
}

#[test]
fn equal_offsets_are_equal_timestamps() {
    let a = Timestamp::after_epoch(2, 500);
    let b = Timestamp::from_unix_nanos(2_000_000_500);
    assert_eq!(a, b);
    assert!(a.same_instant(&b));
    assert_eq!(Timestamp::after_epoch(0, 0), Timestamp::before_epoch(0, 0));
    assert_ne!(Timestamp::after_epoch(0, 1), Timestamp::before_epoch(0, 1));
    assert!(!Timestamp::after_epoch(0, 1).same_instant(&Timestamp::before_epoch(0, 1)));
}
