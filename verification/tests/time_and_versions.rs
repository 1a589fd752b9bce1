use pitgo::aggregate::AggregateVersion;
use pitgo::time::Timestamp;

#[test]
fn timestamps_order_by_seconds_then_nanoseconds() {
    let a = Timestamp::from_unix(10, 999_999_999);
    let b = Timestamp::from_unix(11, 0);
    let c = Timestamp::from_unix(11, 1);
    assert!(a.is_before(&b));
    assert!(b.is_before(&c));
    assert!(c.is_after(&a));
    assert!(!b.is_before(&b));
    assert!(!b.is_after(&b));
    assert!(Timestamp::from_unix(-5, 0).is_before(&Timestamp::from_unix(0, 0)));
}

#[test]
fn timestamps_agree_with_chrono_order() {
    let t0 = chrono::Utc::now();
    let t1 = t0 + chrono::Duration::nanoseconds(1);
    let a = Timestamp::from_unix(t0.timestamp(), t0.timestamp_subsec_nanos());
    let b = Timestamp::from_unix(t1.timestamp(), t1.timestamp_subsec_nanos());
    assert!(a.is_before(&b));
}

#[test]
fn versions_count_up_from_zero() {
    let v0 = AggregateVersion::initial();
    assert_eq!(v0.value(), 0);
    assert_eq!(v0.next().value(), 1);
    assert_eq!(v0.next().next(), AggregateVersion::from(2));
}
