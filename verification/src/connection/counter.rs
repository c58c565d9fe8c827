//! Counting request permits.
use std::sync::atomic::{AtomicI32, Ordering};
use vstd::prelude::*;

verus! {

/// The bits of a count of permits: a count has 31 bits.
pub const COUNTER_MASK: u32 = 0x7FFF_FFFF;

/// The count that a counter starts with when it is made for `n` permits:
/// `n` without its highest bit.
pub open spec fn initial_count(n: u32) -> i32 {
    (n & COUNTER_MASK) as i32
}

/// What adding `n` permits adds to the count: `n` itself while it fits 31
/// bits, and `n - 2^32`, which is below zero, above that.
pub open spec fn permits(n: u32) -> i32 {
    if n <= i32::MAX {
        n as i32
    } else {
        (n - 0x1_0000_0000) as i32
    }
}

/// Computes `initial_count`.
pub fn to_initial_count(n: u32) -> (r: i32)
    ensures
        r == initial_count(n),
        0 <= r,
{
    proof {
        crate::frame::visit::lemma_mask_u31(n);
    }
    (n & COUNTER_MASK) as i32
}

/// Computes `permits`.
pub fn to_permits(n: u32) -> (r: i32)
    ensures
        r == permits(n),
{
    if n <= 0x7FFF_FFFF {
        n as i32
    } else {
        (n as i64 - 0x1_0000_0000) as i32
    }
}

/// Atomic counter for counting request permits.
///
/// The counter is shared between threads, each of which may change it at
/// any time: what one call reads says nothing of what the next will read.
#[derive(Debug)]
pub struct RequestCounter(AtomicI32);

impl RequestCounter {
    /// Create a new `RequestCounter` that holds `initial_count(n)`.
    pub fn new(n: u32) -> RequestCounter {
        RequestCounter(AtomicI32::new(to_initial_count(n)))
    }

    /// Decrements this counter by 1, and returns the previous count.
    pub fn dec(&self) -> i32 {
        self.0.fetch_sub(1, Ordering::SeqCst)
    }

    /// Returns true if counter has reaching zero.
    pub fn is_zero(&self) -> bool {
        self.0.load(Ordering::SeqCst) == 0
    }

    /// Adds permits to this counter: `permits(n)` is added to the count,
    /// which wraps around on overflow.
    pub fn add(&self, n: u32) {
        self.0.fetch_add(to_permits(n), Ordering::SeqCst);
    }

    /// Returns the count this counter stores.
    pub fn load(&self) -> i32 {
        self.0.load(Ordering::SeqCst)
    }
}

} // verus!
