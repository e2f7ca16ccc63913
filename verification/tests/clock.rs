use clepsydra::clock::{record_reading, record_reading_now, step_between, timestamp_from_parts, Timestamp, MIN_STEP_MILLIS};
use clepsydra::table::IdTable;

fn at(secs: i64, subsec_nanos: u32) -> Timestamp {
    Timestamp { secs, subsec_nanos }
}

#[test]
fn step_is_whole_elapsed_millis() {
    assert_eq!(step_between(at(10, 0), at(12, 500_999_999)), 2500);
    assert_eq!(step_between(at(10, 900_000_000), at(11, 0)), 100);
    assert_eq!(step_between(at(10, 900_000_000), at(11, 1_500_000)), 101);
}

#[test]
fn short_or_backward_steps_take_the_minimum() {
    assert_eq!(MIN_STEP_MILLIS, 100);
    assert_eq!(step_between(at(10, 0), at(10, 99_999_999)), 100);
    assert_eq!(step_between(at(10, 0), at(10, 0)), 100);
    assert_eq!(step_between(at(12, 0), at(10, 0)), 100);
}

#[test]
fn readings_measure_from_the_last_one_of_the_same_id() {
    let mut last: IdTable<Timestamp> = IdTable::new();
    let kd1 = "KD1".to_string();
    let kd2 = "KD2".to_string();
    assert_eq!(record_reading(&mut last, &kd1, at(100, 0)), 100);
    assert_eq!(record_reading(&mut last, &kd2, at(101, 0)), 100);
    assert_eq!(record_reading(&mut last, &kd1, at(103, 250_000_000)), 3250);
    assert_eq!(record_reading(&mut last, &kd2, at(101, 40_000_000)), 100);
    assert_eq!(last.get(&kd1), Some(&at(103, 250_000_000)));
    assert_eq!(last.get(&kd2), Some(&at(101, 40_000_000)));
}

#[test]
fn reading_the_clock_records_it() {
    let mut last: IdTable<Timestamp> = IdTable::new();
    let kd1 = "KD1".to_string();
    let (first, step) = record_reading_now(&mut last, &kd1).unwrap();
    assert_eq!(step, 100);
    assert!(first.subsec_nanos < 1_000_000_000);
    assert!(first.secs > 1_600_000_000);
    assert_eq!(last.get(&kd1), Some(&first));
    let (second, step) = record_reading_now(&mut last, &kd1).unwrap();
    assert!(step >= 100);
    assert_eq!(last.get(&kd1), Some(&second));
}

#[test]
fn timestamp_parts_must_fit() {
    assert_eq!(timestamp_from_parts(5, 7), Some(at(5, 7)));
    assert_eq!(timestamp_from_parts(i64::MAX as u64, 0), Some(at(i64::MAX, 0)));
    assert_eq!(timestamp_from_parts(i64::MAX as u64 + 1, 0), None);
    assert_eq!(timestamp_from_parts(u64::MAX, 999_999_999), None);
}
