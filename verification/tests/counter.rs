use binate::connection::counter::{to_initial_count, to_permits};
use binate::connection::RequestCounter;

fn assert_send<T: Send>() {}

fn assert_sync<T: Sync>() {}

#[test]
fn counter_assert_send_sync() {
    assert_send::<RequestCounter>();
    assert_sync::<RequestCounter>();
}

#[test]
fn new() {
    let counter = RequestCounter::new(42);
    assert_eq!(counter.load(), 42);
}

#[test]
fn dec() {
    let counter = RequestCounter::new(42);
    assert_eq!(counter.dec(), 42);
    assert_eq!(counter.load(), 41);
}

#[test]
fn add() {
    let counter = RequestCounter::new(42);
    counter.add(8);
    assert_eq!(counter.load(), 50);
}

#[test]
fn is_zero() {
    let counter = RequestCounter::new(1);
    counter.dec();
    assert!(counter.is_zero());
}

#[test]
fn new_drops_the_highest_bit() {
    let counter = RequestCounter::new(0x8000_0005);
    assert_eq!(counter.load(), 5);
    let counter = RequestCounter::new(u32::MAX);
    assert_eq!(counter.load(), i32::MAX);
}

#[test]
fn counts_and_permits() {
    assert_eq!(to_initial_count(42), 42);
    assert_eq!(to_initial_count(0x8000_0000), 0);
    assert_eq!(to_initial_count(u32::MAX), i32::MAX);
    assert_eq!(to_permits(8), 8);
    assert_eq!(to_permits(i32::MAX as u32), i32::MAX);
    assert_eq!(to_permits(0x8000_0000), i32::MIN);
    assert_eq!(to_permits(u32::MAX), -1);
}

#[test]
fn add_above_31_bits_wraps() {
    let counter = RequestCounter::new(10);
    counter.add(u32::MAX);
    assert_eq!(counter.load(), 9);
    let counter = RequestCounter::new(i32::MAX as u32);
    counter.add(1);
    assert_eq!(counter.load(), i32::MIN);
}
