//! The timer unit: a 16-bit free-running cycle counter whose high byte is
//! the divider register, the TIMA counter with its TMA reload value and TAC
//! control register, and the one-shot reload-pending flag that models the
//! hardware's one-cycle delay between TIMA overflow and the TMA reload.
//!
//! Convention: the free-running counter and the TIMA accumulator advance by
//! the driver-supplied machine-cycle count of the executed instruction, so
//! the four TAC rates divide that count by 256, 4, 16 and 64.

use vstd::prelude::*;

verus! {

pub struct Timer {
    pub cycle_register: u16,
    pub divider_register: u8,
    pub timer_counter: u8,
    pub timer_modulo: u8,
    pub timer_control: u8,
    pub tima_accumulator: u16,
    pub mod_delay: bool,
}

/// TAC bit 2 gates whether TIMA counts at all.
pub open spec fn tac_enabled(tac: u8) -> bool {
    tac & 0x04 != 0
}

/// TAC's low two bits select one of four divisor rates, in machine cycles
/// per TIMA increment.
pub open spec fn tac_threshold(tac: u8) -> u16 {
    if tac & 0x03 == 0 {
        256
    } else if tac & 0x03 == 1 {
        4
    } else if tac & 0x03 == 2 {
        16
    } else {
        64
    }
}

/// Draining the accumulated cycles: each full threshold increments TIMA
/// once; an increment past `0xFF` wraps TIMA to 0, arms the pending reload,
/// and signals the overflow.  Yields accumulator, TIMA, pending flag and
/// overflow signal.
pub open spec fn spec_tima_drain(
    accumulated: u16,
    threshold: u16,
    tima: u8,
    pending: bool,
    overflowed: bool,
) -> (u16, u8, bool, bool)
    decreases accumulated,
{
    if threshold == 0 || accumulated < threshold {
        (accumulated, tima, pending, overflowed)
    } else if tima == 0xFF {
        spec_tima_drain((accumulated - threshold) as u16, threshold, 0, true, true)
    } else {
        spec_tima_drain(
            (accumulated - threshold) as u16,
            threshold,
            (tima + 1) as u8,
            pending,
            overflowed,
        )
    }
}

impl Timer {
    /// The power-on state: every counter and flag zero.
    pub open spec fn initial() -> Timer {
        Timer {
            cycle_register: 0,
            divider_register: 0,
            timer_counter: 0,
            timer_modulo: 0,
            timer_control: 0,
            tima_accumulator: 0,
            mod_delay: false,
        }
    }

    /// The free-running counter after one step: reset when a divider reset
    /// was requested, else advanced (wrapping) by the elapsed cycles.
    pub open spec fn spec_cycle_calc(self, cycles: u8, div_reset: bool) -> Timer {
        Timer {
            cycle_register: if div_reset {
                0
            } else {
                ((self.cycle_register + cycles) % 0x10000) as u16
            },
            ..self
        }
    }

    /// TIMA after one step: untouched while TAC's enable bit is clear, else
    /// the accumulator advances by the elapsed cycles and is drained at the
    /// selected rate.  The second component signals an overflow this step.
    pub open spec fn spec_tima_tick(self, cycles: u8) -> (Timer, bool) {
        if !tac_enabled(self.timer_control) {
            (self, false)
        } else {
            let accumulated = ((self.tima_accumulator + cycles) % 0x10000) as u16;
            let drained = spec_tima_drain(
                accumulated,
                tac_threshold(self.timer_control),
                self.timer_counter,
                self.mod_delay,
                false,
            );
            (
                Timer {
                    tima_accumulator: drained.0,
                    timer_counter: drained.1,
                    mod_delay: drained.2,
                    ..self
                },
                drained.3,
            )
        }
    }

    pub fn new() -> (r: Timer)
        ensures
            r == Timer::initial(),
    {
        Timer {
            cycle_register: 0,
            divider_register: 0,
            timer_counter: 0,
            timer_modulo: 0,
            timer_control: 0,
            tima_accumulator: 0,
            mod_delay: false,
        }
    }

    pub fn cycle_calculation(&mut self, cycles: u8, div_reset: bool)
        ensures
            *final(self) == old(self).spec_cycle_calc(cycles, div_reset),
    {
        if div_reset {
            self.cycle_register = 0;
        } else {
            self.cycle_register = self.cycle_register.wrapping_add(cycles as u16);
        }
    }

    /// Reads TIMA, TMA and TAC back from their memory-mapped registers, so
    /// that CPU writes since the last tick are observed.
    pub fn update_registers(&mut self, mem_map: &Vec<u8>)
        requires
            mem_map@.len() == 0x10000,
        ensures
            *final(self) == (Timer {
                timer_counter: mem_map@[0xFF05],
                timer_modulo: mem_map@[0xFF06],
                timer_control: mem_map@[0xFF07],
                ..*old(self)
            }),
    {
        self.timer_counter = mem_map[0xFF05];
        self.timer_modulo = mem_map[0xFF06];
        self.timer_control = mem_map[0xFF07];
    }

    pub fn tima_tick(&mut self, cycles: u8) -> (overflow: bool)
        ensures
            *final(self) == old(self).spec_tima_tick(cycles).0,
            overflow == old(self).spec_tima_tick(cycles).1,
    {
        if self.timer_control & 0x04 == 0 {
            return false;
        }
        self.tima_accumulator = self.tima_accumulator.wrapping_add(cycles as u16);
        let threshold: u16 = match self.timer_control & 0x03 {
            0 => 256,
            1 => 4,
            2 => 16,
            _ => 64,
        };
        let ghost acc0 = self.tima_accumulator;
        let ghost tima0 = self.timer_counter;
        let ghost pending0 = self.mod_delay;
        let mut overflow = false;
        while self.tima_accumulator >= threshold
            invariant
                threshold == tac_threshold(old(self).timer_control),
                threshold > 0,
                *self == (Timer {
                    tima_accumulator: self.tima_accumulator,
                    timer_counter: self.timer_counter,
                    mod_delay: self.mod_delay,
                    ..*old(self)
                }),
                spec_tima_drain(
                    self.tima_accumulator,
                    threshold,
                    self.timer_counter,
                    self.mod_delay,
                    overflow,
                ) == spec_tima_drain(acc0, threshold, tima0, pending0, false),
            decreases self.tima_accumulator,
        {
            self.tima_accumulator -= threshold;
            if self.timer_counter == 0xFF {
                self.timer_counter = 0;
                self.mod_delay = true;
                overflow = true;
            } else {
                self.timer_counter += 1;
            }
        }
        overflow
    }
}

} // verus!
