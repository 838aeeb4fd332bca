//! The system timer.
//!
//! The free-running microsecond counter is held as owned state; time
//! passing is modeled by stepping the counter, and a busy-wait completes by
//! stepping it to its deadline.  The counter wraps at its width, as the
//! hardware one does.

use vstd::prelude::*;

verus! {

pub struct Timer {
    counter_us: u64,
}

impl View for Timer {
    type V = u64;

    closed spec fn view(&self) -> u64 {
        self.counter_us
    }
}

impl Timer {
    /// The counter as the firmware hands it over.
    pub fn new() -> (r: Timer)
        ensures
            r@ == 0,
    {
        Timer { counter_us: 0 }
    }

    /// The free-running counter needs no set-up.
    pub fn init(&self)
        ensures
            true,
    {
    }

    /// The current count, in microseconds.
    pub fn get_time_us(&self) -> (r: u64)
        ensures
            r == self@,
    {
        self.counter_us
    }

    /// Models time passing: the counter advances, wrapping at its width.
    pub fn advance_us(&mut self, us: u64)
        ensures
            final(self)@ == vstd::wrapping::u64_specs::wrapping_add(old(self)@, us),
    {
        self.counter_us = self.counter_us.wrapping_add(us);
    }

    /// Waits the given number of microseconds: the wait completes exactly
    /// when the counter reaches the deadline.
    pub fn delay_us(&mut self, us: u32)
        ensures
            final(self)@ == vstd::wrapping::u64_specs::wrapping_add(old(self)@, us as u64),
    {
        self.counter_us = self.counter_us.wrapping_add(us as u64);
    }

    /// Waits the given number of milliseconds.
    pub fn delay_ms(&mut self, ms: u32)
        ensures
            final(self)@ == vstd::wrapping::u64_specs::wrapping_add(
                old(self)@,
                vstd::wrapping::u32_specs::wrapping_mul(ms, 1000) as u64,
            ),
    {
        self.delay_us(ms.wrapping_mul(1000));
    }

    /// Whole seconds since the counter started.
    pub fn get_uptime_seconds(&self) -> (r: u32)
        ensures
            r == (self@ / 1000000) as u32,
    {
        #[verifier::truncate] ((self.counter_us / 1000000) as u32)
    }
}

} // verus!
