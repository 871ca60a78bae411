use std::cmp::Ordering;

use human_readable::iec::ONE;
use human_readable::IEC;

#[test]
fn same_unit_compares_payloads() {
    assert!(IEC::new(5) < IEC::new(6));
    assert!(IEC::new(6) > IEC::new(5));
    assert!(IEC::new(5000) < IEC::new(5001));
    assert!(IEC::KiB(ONE) < IEC::KiB(ONE + 1));
    assert!(IEC::KiB(3 * ONE) > IEC::KiB(2 * ONE));
    assert!(IEC::GiB(ONE) <= IEC::GiB(ONE));
    assert!(IEC::GiB(ONE) >= IEC::GiB(ONE));
    assert!(!(IEC::GiB(ONE) < IEC::GiB(ONE)));
    assert_eq!(IEC::TiB(7).partial_cmp(&IEC::TiB(9)), Some(Ordering::Less));
    assert_eq!(IEC::TiB(9).partial_cmp(&IEC::TiB(9)), Some(Ordering::Equal));
    assert_eq!(IEC::TiB(9).partial_cmp(&IEC::TiB(7)), Some(Ordering::Greater));
}

#[test]
fn a_higher_unit_is_greater() {
    assert!(IEC::new(1023) < IEC::new(1024));
    assert!(IEC::B(1023 * ONE) < IEC::KiB(ONE));
    assert!(IEC::B(u128::MAX) < IEC::KiB(0));
    assert!(IEC::EiB(0) > IEC::PiB(u128::MAX));
    assert_eq!(IEC::MiB(5).partial_cmp(&IEC::GiB(1)), Some(Ordering::Less));
    assert_eq!(IEC::GiB(1).partial_cmp(&IEC::MiB(5)), Some(Ordering::Greater));
}

#[test]
fn equality_needs_unit_and_payload() {
    assert_eq!(IEC::new(5000), IEC::new(5000));
    assert!(IEC::new(5000) == IEC::KiB(5000u128 << 50));
    assert!(IEC::new(5000) != IEC::new(5001));
    assert!(IEC::B(ONE) != IEC::KiB(ONE));
    assert_eq!(IEC::B(ONE).partial_cmp(&IEC::B(ONE)), Some(Ordering::Equal));
}

#[test]
fn scaled_values_are_ordered_as_their_magnitudes() {
    let mut samples: Vec<u64> = vec![0, 1, 5, 1023, 1024, 1025, 5000, u64::MAX];
    let mut i: u32 = 10;
    while i <= 63 {
        samples.push((1u64 << i) - 1);
        samples.push(1u64 << i);
        samples.push((1u64 << i) + 1);
        i += 1;
    }
    for &x in samples.iter() {
        for &y in samples.iter() {
            let a = IEC::new(x);
            let b = IEC::new(y);
            assert_eq!(a.partial_cmp(&b), Some(x.cmp(&y)), "{} against {}", x, y);
            assert_eq!(a < b, x < y);
            assert_eq!(a <= b, x <= y);
            assert_eq!(a > b, x > y);
            assert_eq!(a >= b, x >= y);
            assert_eq!(a == b, x == y);
        }
    }
}
