use redisless::expiry::{Expiry, TimeOverflow};
use std::time::{SystemTime, UNIX_EPOCH};

fn clock() -> u64 {
    SystemTime::now()
        .duration_since(UNIX_EPOCH)
        .unwrap()
        .as_millis() as u64
}

#[test]
fn deadline_after_milliseconds() {
    assert_eq!(Expiry::from_millis_at(1_000, 500).unwrap().timestamp(), 1_500);
    assert_eq!(Expiry::from_millis_at(0, 0).unwrap().timestamp(), 0);
    assert_eq!(Expiry::from_millis_at(1_000, 0).unwrap().timestamp(), 1_000);
}

#[test]
fn deadline_after_seconds() {
    assert_eq!(
        Expiry::from_secs_at(1_000, 60).unwrap().timestamp(),
        61_000
    );
    assert_eq!(Expiry::from_secs_at(0, 1).unwrap().timestamp(), 1_000);
    assert_eq!(Expiry::from_secs_at(17, 0).unwrap().timestamp(), 17);
}

#[test]
fn deadline_at_the_limit_of_64_bits() {
    assert_eq!(
        Expiry::from_millis_at(u64::MAX - 1, 1).unwrap().timestamp(),
        u64::MAX
    );
    assert_eq!(Expiry::from_millis_at(u64::MAX, 1), Err(TimeOverflow {}));
    assert_eq!(Expiry::from_millis_at(1, u64::MAX), Err(TimeOverflow {}));
    assert_eq!(
        Expiry::from_secs_at(615, 18_446_744_073_709_551)
            .unwrap()
            .timestamp(),
        u64::MAX
    );
    assert_eq!(
        Expiry::from_secs_at(616, 18_446_744_073_709_551),
        Err(TimeOverflow {})
    );
    assert_eq!(
        Expiry::from_secs_at(0, 18_446_744_073_709_552),
        Err(TimeOverflow {})
    );
    assert_eq!(Expiry::from_secs_at(0, u64::MAX), Err(TimeOverflow {}));
}

#[test]
fn deadline_from_the_clock() {
    let before = clock();
    let in_millis = Expiry::new_from_millis(250).unwrap().timestamp();
    let in_secs = Expiry::new_from_secs(2).unwrap().timestamp();
    let after = clock();
    assert!(before + 250 <= in_millis && in_millis <= after + 250);
    assert!(before + 2_000 <= in_secs && in_secs <= after + 2_000);
}

#[test]
fn deadline_from_the_clock_out_of_range() {
    assert_eq!(Expiry::new_from_millis(u64::MAX), Err(TimeOverflow {}));
    assert_eq!(Expiry::new_from_secs(u64::MAX), Err(TimeOverflow {}));
    assert_eq!(
        Expiry::new_from_secs(18_446_744_073_709_552),
        Err(TimeOverflow {})
    );
}

#[test]
fn expiries_compare_by_deadline() {
    let a = Expiry::from_secs_at(1_000, 1).unwrap();
    let b = Expiry::from_millis_at(1_000, 1_000).unwrap();
    let c = Expiry::from_millis_at(1_000, 1_001).unwrap();
    assert_eq!(a, b);
    assert_ne!(a, c);
}
