use timeline_thumbnails::error::ErrorKind;
use timeline_thumbnails::schedule::{schedule, timestamp, Duration, Timestamp};

fn at(numerator: u128, denominator: u32) -> Timestamp {
    Timestamp { numerator, denominator }
}

fn before(a: &Timestamp, b: &Timestamp) -> bool {
    a.numerator * (b.denominator as u128) < b.numerator * (a.denominator as u128)
}

#[test]
fn schedule_of_ten_seconds_in_four() {
    let v = schedule(Duration { micros: 10_000_000 }, 4).unwrap();
    assert_eq!(v, vec![at(0, 4), at(10_000_000, 4), at(20_000_000, 4), at(30_000_000, 4)]);
}

#[test]
fn schedule_keeps_fractions_of_a_microsecond() {
    let v = schedule(Duration { micros: 10 }, 3).unwrap();
    assert_eq!(v, vec![at(0, 3), at(10, 3), at(20, 3)]);
    assert_eq!(timestamp(Duration { micros: 10 }, 3, 2), at(20, 3));
}

#[test]
fn schedule_of_nothing_is_refused() {
    let e = schedule(Duration { micros: 10_000_000 }, 0).unwrap_err();
    assert_eq!(e.kind, ErrorKind::InvalidArgument);
    assert_eq!(e.message, "thumbnail count must be at least 1");
    assert_eq!(e.to_text(), "thumbnail count must be at least 1");
}

#[test]
fn schedule_has_the_shape_of_an_even_spacing() {
    for &(micros, count) in
        &[(1u64, 1u32), (1, 2), (3, 4), (7, 7), (1_000_000, 3), (123_456_789, 50), (u64::MAX, 9)]
    {
        let v = schedule(Duration { micros }, count).unwrap();
        assert_eq!(v.len(), count as usize);
        assert_eq!(v[0].numerator, 0);
        let end = at(micros as u128, 1);
        assert!(before(&v[v.len() - 1], &end));
        for i in 1..v.len() {
            assert!(before(&v[i - 1], &v[i]));
        }
    }
}

#[test]
fn schedule_over_no_time_is_all_at_the_start() {
    let v = schedule(Duration { micros: 0 }, 5).unwrap();
    assert_eq!(v, vec![at(0, 5); 5]);
}

#[test]
fn schedule_of_one_frame_starts_at_zero() {
    assert_eq!(schedule(Duration { micros: 0 }, 1).unwrap(), vec![at(0, 1)]);
    assert_eq!(schedule(Duration { micros: 99 }, 1).unwrap(), vec![at(0, 1)]);
}

#[test]
fn schedule_finer_than_a_microsecond_still_increases() {
    let v = schedule(Duration { micros: 1 }, 2).unwrap();
    assert_eq!(v, vec![at(0, 2), at(1, 2)]);
    assert!(before(&v[0], &v[1]));
}

#[test]
fn timestamp_does_not_overflow_at_the_limits() {
    let d = Duration { micros: u64::MAX };
    assert_eq!(timestamp(d, u32::MAX, 0), at(0, u32::MAX));
    let last = timestamp(d, u32::MAX, u32::MAX - 1);
    assert_eq!(last, at((u32::MAX as u128 - 1) * (u64::MAX as u128), u32::MAX));
    assert!(before(&last, &at(u64::MAX as u128, 1)));
}
