//! The programmable timer and the free-running divider. The timer adds
//! elapsed T-cycles to an accumulator while active; each time the accumulator
//! reaches the selected tick period it subtracts the period and increments an
//! 8-bit counter, and a counter overflow reloads the counter from the modulo
//! register and raises the timer interrupt. The divider is an 8-bit counter
//! that advances once per T-cycle and wraps.

use vstd::prelude::*;

verus! {

/// The four selectable timer rates, named by ticks per second. The two-bit
/// clock-select field maps 0 to F4096, 1 to F262144, 2 to F65536 and 3 to
/// F16384; positions 1 and 3 are swapped relative to an integer ordering.
#[derive(Copy, Clone, PartialEq, Eq, Structural, Debug)]
pub enum TimerFrequency {
    F4096,
    F16384,
    F65536,
    F262144,
}

/// The tick period of a rate, in T-cycles.
pub open spec fn spec_frequency_ticks(frequency: TimerFrequency) -> usize {
    match frequency {
        TimerFrequency::F4096 => 1024,
        TimerFrequency::F16384 => 256,
        TimerFrequency::F65536 => 64,
        TimerFrequency::F262144 => 16,
    }
}

impl TimerFrequency {
    /// How many T-cycles one counter tick takes at this rate.
    pub fn in_ticks(&self) -> (r: usize)
        ensures
            r == spec_frequency_ticks(*self),
    {
        match self {
            TimerFrequency::F4096 => 1024,
            TimerFrequency::F16384 => 256,
            TimerFrequency::F65536 => 64,
            TimerFrequency::F262144 => 16,
        }
    }
}

#[derive(Copy, Clone, PartialEq, Eq, Structural, Debug)]
pub struct Timer {
    pub frequency: TimerFrequency,
    pub cycles: usize,
    pub value: u8,
    pub modulo: u8,
    pub active: bool,
}

/// The counter, accumulator and overflow signal after the accumulator `acc`
/// is drained: each whole period removes one period from the accumulator and
/// increments the counter, and a counter overflow reloads it from `modulo`
/// and signals.
pub open spec fn spec_timer_drain(value: u8, modulo: u8, acc: int, period: int) -> (u8, int, bool)
    decreases acc,
{
    if period <= 0 || acc < period {
        (value, acc, false)
    } else {
        let next = if value == 255 { modulo } else { (value + 1) as u8 };
        let rest = spec_timer_drain(next, modulo, acc - period, period);
        (rest.0, rest.1, rest.2 || value == 255)
    }
}

impl Timer {
    /// Inactive, at the slowest rate, with counter, modulo and accumulator
    /// zero.
    pub fn new() -> (r: Timer)
        ensures
            r == (Timer {
                frequency: TimerFrequency::F4096,
                cycles: 0usize,
                value: 0u8,
                modulo: 0u8,
                active: false,
            }),
    {
        Timer {
            frequency: TimerFrequency::F4096,
            cycles: 0,
            value: 0,
            modulo: 0,
            active: false,
        }
    }

    /// Advance the timer by the given number of T-cycles. While inactive
    /// nothing changes. While active the cycles join the accumulator, each
    /// whole period then ticks the counter, and the result says whether any
    /// tick overflowed the counter, which reloads it from the modulo
    /// register.
    pub fn step(&mut self, cycles: u16) -> (did_overflow: bool)
        requires
            old(self).cycles <= 0xFFFF,
        ensures
            !old(self).active ==> *final(self) == *old(self) && !did_overflow,
            old(self).active ==> ({
                let drained = spec_timer_drain(
                    old(self).value,
                    old(self).modulo,
                    old(self).cycles + cycles,
                    spec_frequency_ticks(old(self).frequency) as int,
                );
                &&& final(self).value == drained.0
                &&& final(self).cycles == drained.1
                &&& did_overflow == drained.2
                &&& final(self).frequency == old(self).frequency
                &&& final(self).modulo == old(self).modulo
                &&& final(self).active
                &&& final(self).cycles < spec_frequency_ticks(old(self).frequency)
            }),
    {
        if !self.active {
            return false;
        }
        let ghost value0 = self.value;
        let ghost modulo0 = self.modulo;
        let ghost frequency0 = self.frequency;
        let ghost acc0 = self.cycles as int + cycles as int;
        self.cycles = self.cycles + cycles as usize;
        let period = self.frequency.in_ticks();
        let mut did_overflow = false;
        while self.cycles >= period
            invariant
                16 <= period,
                self.modulo == modulo0,
                self.frequency == frequency0,
                self.active,
                period == spec_frequency_ticks(self.frequency),
                spec_timer_drain(value0, modulo0, acc0, period as int) == ({
                    let rest = spec_timer_drain(
                        self.value,
                        modulo0,
                        self.cycles as int,
                        period as int,
                    );
                    (rest.0, rest.1, rest.2 || did_overflow)
                }),
            decreases self.cycles,
        {
            self.cycles = self.cycles - period;
            if self.value == 255 {
                self.value = self.modulo;
                did_overflow = true;
            } else {
                self.value = self.value + 1;
            }
        }
        did_overflow
    }
}

#[derive(Copy, Clone, PartialEq, Eq, Structural, Debug)]
pub struct Divider {
    pub value: u8,
}

impl Divider {
    /// Advance the divider by the given number of T-cycles: it counts one per
    /// cycle and wraps as an 8-bit value.
    pub fn step(&mut self, cycles: u16)
        ensures
            final(self).value == (old(self).value + cycles) % 256,
    {
        let step_mod: u8 = (cycles % 256) as u8;
        let value0 = self.value;
        proof {
            assert((value0 + cycles % 256) % 256 == (value0 + cycles) % 256) by (bit_vector);
        }
        self.value = ((value0 as u16 + step_mod as u16) % 256) as u8;
    }
}

} // verus!
